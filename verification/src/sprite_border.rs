//! A panel with a border that is drawn from nine tiles of a spritesheet.

use vstd::prelude::*;
use crate::number::UNIT;
use crate::border_grid::BorderSize;
use crate::location::Location;
use crate::node::{BorderGrid, Node, Quadrants, Stack};
use crate::sprite::{Repeat, RepeatTile, Sprite, Spritesheet};
use crate::tile::{Tile, TileQuadrants};

verus! {

/// A panel with a border of sprites.
pub struct SpriteBorder;

/// Builds a [`SpriteBorder`]. The spritesheet, the size of the border, the
/// tiles and the center must all be set before it is built.
pub struct SpriteBorderBuilder {
    pub spritesheet: Option<Spritesheet>,
    pub border_size: Option<BorderSize>,
    pub quadrants: Option<TileQuadrants>,
    pub center: Option<Node>,
    pub repeat_tile: RepeatTile,
    pub visible: bool,
    pub location: Location,
}

/// The sprite of one part of the border.
pub open spec fn part_spec(spritesheet: Spritesheet, tile: Tile, repeat_tile: RepeatTile) -> Sprite {
    Sprite {
        visible: true,
        location: Location::default_spec(),
        spritesheet: Some(spritesheet),
        repeat_tile,
        alpha: UNIT,
        tile,
        palette: None,
    }
}

fn part(spritesheet: Spritesheet, tile: Tile, repeat_tile: RepeatTile) -> (r: Node)
    ensures
        r == Node::Sprite(part_spec(spritesheet, tile, repeat_tile)),
{
    Node::Sprite(Sprite {
        visible: true,
        location: Location::default(),
        spritesheet: Some(spritesheet),
        repeat_tile,
        alpha: UNIT,
        tile,
        palette: None,
    })
}

impl SpriteBorder {
    /// Starts a panel that is visible, fills its parent and repeats no tile.
    pub fn builder() -> (r: SpriteBorderBuilder)
        ensures
            r.spritesheet is None,
            r.border_size is None,
            r.quadrants is None,
            r.center is None,
            r.repeat_tile == (RepeatTile { width: Repeat::Stretch, height: Repeat::Stretch }),
            r.visible,
            r.location == Location::default_spec(),
    {
        SpriteBorderBuilder {
            spritesheet: None,
            border_size: None,
            quadrants: None,
            center: None,
            repeat_tile: RepeatTile::default(),
            visible: true,
            location: Location::default(),
        }
    }
}

impl SpriteBorderBuilder {
    /// Sets the spritesheet that the border is drawn from.
    pub fn spritesheet(self, spritesheet: Spritesheet) -> (r: Self)
        ensures
            r == (SpriteBorderBuilder { spritesheet: Some(spritesheet), ..self }),
    {
        SpriteBorderBuilder { spritesheet: Some(spritesheet), ..self }
    }

    /// Sets the thickness of the border.
    pub fn border_size(self, border_size: BorderSize) -> (r: Self)
        ensures
            r == (SpriteBorderBuilder { border_size: Some(border_size), ..self }),
    {
        SpriteBorderBuilder { border_size: Some(border_size), ..self }
    }

    /// Sets the tiles of the nine parts.
    pub fn quadrants(self, quadrants: TileQuadrants) -> (r: Self)
        ensures
            r == (SpriteBorderBuilder { quadrants: Some(quadrants), ..self }),
    {
        SpriteBorderBuilder { quadrants: Some(quadrants), ..self }
    }

    /// Sets what is shown inside the border.
    pub fn center(self, center: Node) -> (r: Self)
        ensures
            r == (SpriteBorderBuilder { center: Some(center), ..self }),
    {
        SpriteBorderBuilder { center: Some(center), ..self }
    }

    /// Sets how the tiles of the edges and of the center are repeated.
    pub fn repeat_tile(self, repeat_tile: RepeatTile) -> (r: Self)
        ensures
            r == (SpriteBorderBuilder { repeat_tile, ..self }),
    {
        SpriteBorderBuilder { repeat_tile, ..self }
    }

    /// Whether everything that the panel needs has been set.
    pub open spec fn complete(self) -> bool {
        &&& self.spritesheet is Some
        &&& self.border_size is Some
        &&& self.quadrants is Some
        &&& self.center is Some
    }

    /// Checks whether everything that the panel needs has been set.
    pub fn is_complete(&self) -> (r: bool)
        ensures
            r == self.complete(),
    {
        self.spritesheet.is_some() && self.border_size.is_some() && self.quadrants.is_some() && self.center.is_some()
    }

    /// Builds the panel: a border grid whose corners show their tiles
    /// stretched, whose edges repeat their tiles along the border only, and
    /// whose center is a stack of the repeated center tile with the given
    /// node on top.
    pub fn build(self) -> (r: Node)
        requires
            self.complete(),
        ensures
            ({
                let sheet = self.spritesheet->Some_0;
                let tiles = self.quadrants->Some_0;
                let along = RepeatTile { width: self.repeat_tile.width, height: Repeat::Stretch };
                let down = RepeatTile { width: Repeat::Stretch, height: self.repeat_tile.height };
                let plain = RepeatTile { width: Repeat::Stretch, height: Repeat::Stretch };
                &&& r is BorderGrid
                &&& r->BorderGrid_0.visible == self.visible
                &&& r->BorderGrid_0.location == self.location
                &&& r->BorderGrid_0.border_size == self.border_size
                &&& r->BorderGrid_0.quadrants is Some
                &&& r->BorderGrid_0.quadrants->Some_0.up_left == Node::Sprite(part_spec(sheet, tiles.up_left, plain))
                &&& r->BorderGrid_0.quadrants->Some_0.up == Node::Sprite(part_spec(sheet, tiles.up, along))
                &&& r->BorderGrid_0.quadrants->Some_0.up_right == Node::Sprite(part_spec(sheet, tiles.up_right, plain))
                &&& r->BorderGrid_0.quadrants->Some_0.left == Node::Sprite(part_spec(sheet, tiles.left, down))
                &&& r->BorderGrid_0.quadrants->Some_0.right == Node::Sprite(part_spec(sheet, tiles.right, down))
                &&& r->BorderGrid_0.quadrants->Some_0.down_left == Node::Sprite(part_spec(sheet, tiles.down_left, plain))
                &&& r->BorderGrid_0.quadrants->Some_0.down == Node::Sprite(part_spec(sheet, tiles.down, along))
                &&& r->BorderGrid_0.quadrants->Some_0.down_right == Node::Sprite(part_spec(sheet, tiles.down_right, plain))
                &&& r->BorderGrid_0.quadrants->Some_0.center is Stack
                &&& r->BorderGrid_0.quadrants->Some_0.center->Stack_0.visible
                &&& r->BorderGrid_0.quadrants->Some_0.center->Stack_0.location == Location::default_spec()
                &&& r->BorderGrid_0.quadrants->Some_0.center->Stack_0.children@
                    == seq![Node::Sprite(part_spec(sheet, tiles.center, self.repeat_tile)), self.center->Some_0]
            }),
    {
        let SpriteBorderBuilder { spritesheet, border_size, quadrants, center, repeat_tile, visible, location } = self;
        let sheet = spritesheet.unwrap();
        let tiles = quadrants.unwrap();
        let along = RepeatTile { width: repeat_tile.width, height: Repeat::Stretch };
        let down = RepeatTile { width: Repeat::Stretch, height: repeat_tile.height };
        let plain = RepeatTile { width: Repeat::Stretch, height: Repeat::Stretch };
        let mut inside: Vec<Node> = Vec::new();
        inside.push(part(sheet, tiles.center, repeat_tile));
        inside.push(center.unwrap());
        proof {
            assert(inside@ =~= seq![Node::Sprite(part_spec(sheet, tiles.center, repeat_tile)), center->Some_0]);
        }
        Node::BorderGrid(BorderGrid {
            visible,
            location,
            border_size,
            quadrants: Some(Box::new(Quadrants {
                up_left: part(sheet, tiles.up_left, plain),
                up: part(sheet, tiles.up, along),
                up_right: part(sheet, tiles.up_right, plain),
                left: part(sheet, tiles.left, down),
                center: Node::Stack(Stack { visible: true, location: Location::default(), children: inside }),
                right: part(sheet, tiles.right, down),
                down_left: part(sheet, tiles.down_left, plain),
                down: part(sheet, tiles.down, along),
                down_right: part(sheet, tiles.down_right, plain),
            })),
        })
    }
}

} // verus!
