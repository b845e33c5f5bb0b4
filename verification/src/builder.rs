//! Building the nodes of a scene, and changing their properties once the
//! scene is drawn. A change says what it asks of the next frame: nothing, a
//! new layout, or only that the leaves be drawn again.

use vstd::prelude::*;
use crate::number::{Percentage, UNIT};
use crate::bitmap_text::{BitmapFont, BitmapText, CharSize, ColorRgb};
use crate::border_grid::BorderSize;
use crate::grid::GridSize;
use crate::location::{Length, Location, Offset, Order, Origin, Padding, Size};
use crate::node::{BorderGrid, Column, Grid, Node, Quadrants, Row, Stack, Wrap};
use crate::scene::BuilderChanged;
use crate::sprite::{RepeatTile, Sprite, Spritesheet};
use crate::tile::Tile;

verus! {

impl Stack {
    /// A visible stack without children that fills its parent.
    pub fn new() -> (r: Self)
        ensures
            r.visible,
            r.location == Location::default_spec(),
            r.children@ == Seq::<Node>::empty(),
    {
        Stack { visible: true, location: Location::default(), children: Vec::new() }
    }
}

impl Row {
    /// A visible row without children that fills its parent.
    pub fn new() -> (r: Self)
        ensures
            r.visible,
            r.location == Location::default_spec(),
            r.children@ == Seq::<Node>::empty(),
    {
        Row { visible: true, location: Location::default(), children: Vec::new() }
    }
}

impl Column {
    /// A visible column without children that fills its parent.
    pub fn new() -> (r: Self)
        ensures
            r.visible,
            r.location == Location::default_spec(),
            r.children@ == Seq::<Node>::empty(),
    {
        Column { visible: true, location: Location::default(), children: Vec::new() }
    }
}

impl Wrap {
    /// A visible wrap without children that fills its parent.
    pub fn new() -> (r: Self)
        ensures
            r.visible,
            r.location == Location::default_spec(),
            r.children@ == Seq::<Node>::empty(),
    {
        Wrap { visible: true, location: Location::default(), children: Vec::new() }
    }
}

impl Grid {
    /// A visible grid without children and without a cell size yet.
    pub fn new() -> (r: Self)
        ensures
            r.visible,
            r.location == Location::default_spec(),
            r.children@ == Seq::<Node>::empty(),
            r.grid_size is None,
    {
        Grid { visible: true, location: Location::default(), children: Vec::new(), grid_size: None }
    }

    /// Sets the [`GridSize`] for the grid.
    pub fn set_grid_size(&mut self, grid_size: GridSize) -> (r: BuilderChanged)
        ensures
            final(self).grid_size == Some(grid_size),
            final(self).visible == old(self).visible,
            final(self).location == old(self).location,
            final(self).children == old(self).children,
            r == BuilderChanged::Layout.when_visible_spec(old(self).visible),
    {
        self.grid_size = Some(grid_size);
        BuilderChanged::Layout.when_visible(self.visible)
    }
}

impl BorderGrid {
    /// A visible border grid without children and without a border yet.
    pub fn new() -> (r: Self)
        ensures
            r.visible,
            r.location == Location::default_spec(),
            r.quadrants is None,
            r.border_size is None,
    {
        BorderGrid { visible: true, location: Location::default(), quadrants: None, border_size: None }
    }

    /// Sets the [`Quadrants`] for the border grid, which must have none yet.
    pub fn set_quadrants(&mut self, quadrants: Quadrants) -> (r: BuilderChanged)
        requires
            old(self).quadrants is None,
        ensures
            final(self).quadrants is Some,
            *final(self).quadrants->Some_0 == quadrants,
            final(self).visible == old(self).visible,
            final(self).location == old(self).location,
            final(self).border_size == old(self).border_size,
            r == BuilderChanged::Layout.when_visible_spec(old(self).visible),
    {
        self.quadrants = Some(Box::new(quadrants));
        BuilderChanged::Layout.when_visible(self.visible)
    }

    /// Sets the [`BorderSize`] for the border grid.
    pub fn set_border_size(&mut self, border_size: BorderSize) -> (r: BuilderChanged)
        ensures
            final(self).border_size == Some(border_size),
            final(self).visible == old(self).visible,
            final(self).location == old(self).location,
            final(self).quadrants == old(self).quadrants,
            r == BuilderChanged::Layout.when_visible_spec(old(self).visible),
    {
        self.border_size = Some(border_size);
        BuilderChanged::Layout.when_visible(self.visible)
    }
}

impl BitmapText {
    /// A visible, empty, black text without font and character size yet.
    pub fn new() -> (r: Self)
        ensures
            r.visible,
            r.location == Location::default_spec(),
            r.font is None,
            r.char_size is None,
            r.text@ == Seq::<char>::empty(),
            r.text_color == (ColorRgb { r: 0, g: 0, b: 0 }),
            r.line_spacing == Length::Zero,
    {
        BitmapText {
            visible: true,
            location: Location::default(),
            font: None,
            char_size: None,
            text: Vec::new(),
            text_color: ColorRgb::default(),
            line_spacing: Length::Zero,
        }
    }

    /// Sets the [`BitmapFont`] which will be used for this text.
    pub fn set_font(&mut self, value: BitmapFont) -> (r: BuilderChanged)
        ensures
            *final(self) == (BitmapText { font: Some(value), ..*old(self) }),
            r == BuilderChanged::Layout.when_visible_spec(old(self).visible),
    {
        self.font = Some(value);
        BuilderChanged::Layout.when_visible(self.visible)
    }

    /// Sets the [`CharSize`] which specifies the width / height of each character.
    pub fn set_char_size(&mut self, value: CharSize) -> (r: BuilderChanged)
        ensures
            *final(self) == (BitmapText { char_size: Some(value), ..*old(self) }),
            r == BuilderChanged::Layout.when_visible_spec(old(self).visible),
    {
        self.char_size = Some(value);
        BuilderChanged::Layout.when_visible(self.visible)
    }

    /// Sets the text which will be displayed.
    pub fn set_text(&mut self, value: Vec<char>) -> (r: BuilderChanged)
        ensures
            *final(self) == (BitmapText { text: value, ..*old(self) }),
            r == BuilderChanged::Layout.when_visible_spec(old(self).visible),
    {
        self.text = value;
        BuilderChanged::Layout.when_visible(self.visible)
    }

    /// Sets the [`ColorRgb`] which specifies the text's color.
    pub fn set_text_color(&mut self, value: ColorRgb) -> (r: BuilderChanged)
        ensures
            *final(self) == (BitmapText { text_color: value, ..*old(self) }),
            r == BuilderChanged::Layout.when_visible_spec(old(self).visible),
    {
        self.text_color = value;
        BuilderChanged::Layout.when_visible(self.visible)
    }

    /// Sets the spacing between each line of text.
    pub fn set_line_spacing(&mut self, value: Length) -> (r: BuilderChanged)
        ensures
            *final(self) == (BitmapText { line_spacing: value, ..*old(self) }),
            r == BuilderChanged::Layout.when_visible_spec(old(self).visible),
    {
        self.line_spacing = value;
        BuilderChanged::Layout.when_visible(self.visible)
    }
}

impl Sprite {
    /// What a change of the alpha from `old_alpha` to `new_alpha` asks for:
    /// nothing where they are the same; a new layout where either is zero or
    /// one, because the sprite then changes between being drawn opaquely,
    /// blended, or not at all; else only a new drawing.
    pub open spec fn alpha_change_spec(old_alpha: Percentage, new_alpha: Percentage) -> BuilderChanged {
        if old_alpha == new_alpha {
            BuilderChanged::Unchanged
        } else if old_alpha == UNIT || old_alpha == 0 || new_alpha == UNIT || new_alpha == 0 {
            BuilderChanged::Layout
        } else {
            BuilderChanged::Render
        }
    }

    /// Sets the alpha for the sprite.
    ///
    /// One means fully opaque, zero means fully transparent.
    pub fn set_alpha(&mut self, value: Percentage) -> (r: BuilderChanged)
        ensures
            *final(self) == (Sprite { alpha: value, ..*old(self) }),
            r == Self::alpha_change_spec(old(self).alpha, value).when_visible_spec(old(self).visible),
    {
        if self.alpha != value {
            let old_edge = self.alpha == UNIT || self.alpha == 0;
            let new_edge = value == UNIT || value == 0;
            self.alpha = value;
            if old_edge || new_edge {
                BuilderChanged::Layout.when_visible(self.visible)
            } else {
                BuilderChanged::Render.when_visible(self.visible)
            }
        } else {
            BuilderChanged::Unchanged
        }
    }

    /// Sets the [`Spritesheet`] which will be used for this sprite.
    pub fn set_spritesheet(&mut self, value: Spritesheet) -> (r: BuilderChanged)
        ensures
            *final(self) == (Sprite { spritesheet: Some(value), ..*old(self) }),
            r == BuilderChanged::Layout.when_visible_spec(old(self).visible),
    {
        self.spritesheet = Some(value);
        BuilderChanged::Layout.when_visible(self.visible)
    }

    /// Sets the [`Tile`] which specifies which tile to display (in pixel coordinates).
    pub fn set_tile(&mut self, value: Tile) -> (r: BuilderChanged)
        ensures
            *final(self) == (Sprite { tile: value, ..*old(self) }),
            r == BuilderChanged::Render.when_visible_spec(old(self).visible),
    {
        self.tile = value;
        BuilderChanged::Render.when_visible(self.visible)
    }

    /// Sets the [`RepeatTile`] which specifies how to repeat the sprite tile.
    pub fn set_repeat_tile(&mut self, value: RepeatTile) -> (r: BuilderChanged)
        ensures
            *final(self) == (Sprite { repeat_tile: value, ..*old(self) }),
            r == BuilderChanged::Render.when_visible_spec(old(self).visible),
    {
        self.repeat_tile = value;
        BuilderChanged::Render.when_visible(self.visible)
    }

    /// Sets the palette for this sprite.
    pub fn set_palette(&mut self, value: u32) -> (r: BuilderChanged)
        ensures
            *final(self) == (Sprite { palette: Some(value), ..*old(self) }),
            r == BuilderChanged::Render.when_visible_spec(old(self).visible),
    {
        self.palette = Some(value);
        BuilderChanged::Render.when_visible(self.visible)
    }
}

/// A property that every kind of node has.
#[derive(Clone, Copy, Debug, PartialEq, Eq, Structural)]
pub enum Property {
    /// If the node isn't visible then it's treated as if it doesn't exist.
    Visible(bool),
    /// Offset x / y which is added to the parent's x / y.
    Offset(Offset),
    /// Width / height of the node.
    Size(Size),
    /// Empty space around the node.
    Padding(Padding),
    /// Position relative to the parent space.
    Origin(Origin),
    /// Specifies the order of which nodes are drawn on top of other nodes.
    Order(Order),
}

impl Property {
    /// The location with the property set.
    pub open spec fn location_spec(self, location: Location) -> Location {
        match self {
            Property::Visible(_) => location,
            Property::Offset(value) => Location { offset: value, ..location },
            Property::Size(value) => Location { size: value, ..location },
            Property::Padding(value) => Location { padding: value, ..location },
            Property::Origin(value) => Location { origin: value, ..location },
            Property::Order(value) => Location { order: value, ..location },
        }
    }

    /// Whether the node is visible once the property is set.
    pub open spec fn visible_spec(self, visible: bool) -> bool {
        match self {
            Property::Visible(value) => value,
            _ => visible,
        }
    }

    /// What a change of the property asks for: where a sprite is drawn can
    /// change without a new layout, because nothing depends on it; anything
    /// else needs a new layout.
    pub open spec fn effect_spec(self, sprite: bool) -> BuilderChanged {
        match self {
            Property::Offset(_) | Property::Padding(_) | Property::Origin(_) => if sprite {
                BuilderChanged::Render
            } else {
                BuilderChanged::Layout
            },
            _ => BuilderChanged::Layout,
        }
    }

    /// Sets the property in `location`.
    pub fn location(&self, location: &Location) -> (r: Location)
        ensures
            r == self.location_spec(*location),
    {
        match *self {
            Property::Visible(_) => *location,
            Property::Offset(value) => Location { offset: value, size: location.size, padding: location.padding, origin: location.origin, order: location.order },
            Property::Size(value) => Location { offset: location.offset, size: value, padding: location.padding, origin: location.origin, order: location.order },
            Property::Padding(value) => Location { offset: location.offset, size: location.size, padding: value, origin: location.origin, order: location.order },
            Property::Origin(value) => Location { offset: location.offset, size: location.size, padding: location.padding, origin: value, order: location.order },
            Property::Order(value) => Location { offset: location.offset, size: location.size, padding: location.padding, origin: location.origin, order: value },
        }
    }

    /// Whether the node is visible once the property is set.
    pub fn visible(&self, visible: bool) -> (r: bool)
        ensures
            r == self.visible_spec(visible),
    {
        match *self {
            Property::Visible(value) => value,
            _ => visible,
        }
    }

    /// What a change of the property asks for.
    pub fn effect(&self, sprite: bool) -> (r: BuilderChanged)
        ensures
            r == self.effect_spec(sprite),
    {
        match *self {
            Property::Offset(_) | Property::Padding(_) | Property::Origin(_) => if sprite {
                BuilderChanged::Render
            } else {
                BuilderChanged::Layout
            },
            _ => BuilderChanged::Layout,
        }
    }
}

impl Node {
    /// The node with a property set. A child that may be missing has no
    /// properties of its own and stays as it is.
    pub open spec fn with_spec(self, property: Property) -> Node {
        match self {
            Node::Sprite(n) => Node::Sprite(Sprite { visible: property.visible_spec(n.visible), location: property.location_spec(n.location), ..n }),
            Node::Stack(n) => Node::Stack(Stack { visible: property.visible_spec(n.visible), location: property.location_spec(n.location), ..n }),
            Node::Row(n) => Node::Row(Row { visible: property.visible_spec(n.visible), location: property.location_spec(n.location), ..n }),
            Node::Column(n) => Node::Column(Column { visible: property.visible_spec(n.visible), location: property.location_spec(n.location), ..n }),
            Node::Wrap(n) => Node::Wrap(Wrap { visible: property.visible_spec(n.visible), location: property.location_spec(n.location), ..n }),
            Node::Grid(n) => Node::Grid(Grid { visible: property.visible_spec(n.visible), location: property.location_spec(n.location), ..n }),
            Node::BorderGrid(n) => Node::BorderGrid(BorderGrid { visible: property.visible_spec(n.visible), location: property.location_spec(n.location), ..n }),
            Node::BitmapText(n) => Node::BitmapText(BitmapText { visible: property.visible_spec(n.visible), location: property.location_spec(n.location), ..n }),
            Node::Optional(o) => Node::Optional(o),
        }
    }

    /// What setting a property of the node asks of the next frame: what the
    /// property asks for, if the node is visible afterwards.
    pub open spec fn effect_spec(self, property: Property) -> BuilderChanged {
        match self {
            Node::Optional(_) => BuilderChanged::Unchanged,
            Node::Sprite(_) => property.effect_spec(true).when_visible_spec(self.with_spec(property).is_visible_spec()),
            _ => property.effect_spec(false).when_visible_spec(self.with_spec(property).is_visible_spec()),
        }
    }

    /// Sets a property of the node and says what that asks of the next
    /// frame.
    pub fn set(&mut self, property: Property) -> (r: BuilderChanged)
        ensures
            *final(self) == old(self).with_spec(property),
            r == old(self).effect_spec(property),
    {
        match self {
            Node::Sprite(n) => {
                n.visible = property.visible(n.visible);
                n.location = property.location(&n.location);
                property.effect(true).when_visible(n.visible)
            },
            Node::Stack(n) => {
                n.visible = property.visible(n.visible);
                n.location = property.location(&n.location);
                property.effect(false).when_visible(n.visible)
            },
            Node::Row(n) => {
                n.visible = property.visible(n.visible);
                n.location = property.location(&n.location);
                property.effect(false).when_visible(n.visible)
            },
            Node::Column(n) => {
                n.visible = property.visible(n.visible);
                n.location = property.location(&n.location);
                property.effect(false).when_visible(n.visible)
            },
            Node::Wrap(n) => {
                n.visible = property.visible(n.visible);
                n.location = property.location(&n.location);
                property.effect(false).when_visible(n.visible)
            },
            Node::Grid(n) => {
                n.visible = property.visible(n.visible);
                n.location = property.location(&n.location);
                property.effect(false).when_visible(n.visible)
            },
            Node::BorderGrid(n) => {
                n.visible = property.visible(n.visible);
                n.location = property.location(&n.location);
                property.effect(false).when_visible(n.visible)
            },
            Node::BitmapText(n) => {
                n.visible = property.visible(n.visible);
                n.location = property.location(&n.location);
                property.effect(false).when_visible(n.visible)
            },
            Node::Optional(_) => BuilderChanged::Unchanged,
        }
    }
}

/// Puts a child in the place of a child that may be missing, or takes it
/// away. Only where no child was there and none comes does nothing change.
pub fn update_optional(slot: &mut Option<Box<Node>>, new_child: Option<Node>) -> (r: BuilderChanged)
    ensures
        match new_child {
            Some(child) => *final(slot) == Some(Box::new(child)),
            None => *final(slot) is None,
        },
        r == if *old(slot) is Some || new_child is Some { BuilderChanged::Layout } else { BuilderChanged::Unchanged },
{
    if slot.is_some() || new_child.is_some() {
        *slot = match new_child {
            Some(child) => Some(Box::new(child)),
            None => None,
        };
        BuilderChanged::Layout
    } else {
        BuilderChanged::Unchanged
    }
}

/// A change of the children of a node.
pub enum ChildrenChange {
    /// All the children are replaced.
    Replace { values: Vec<Node> },
    /// A child is added before the child at `index`.
    InsertAt { index: usize, value: Node },
    /// The child at `index` is replaced.
    UpdateAt { index: usize, value: Node },
    /// The child at `index` is taken away.
    RemoveAt { index: usize },
    /// The child at `old_index` is taken out and put back at `new_index`.
    Move { old_index: usize, new_index: usize },
    /// A child is added after the last.
    Push { value: Node },
    /// The last child is taken away.
    Pop,
    /// All the children are taken away.
    Clear,
}

impl ChildrenChange {
    /// Whether the change can be made to `len` children.
    pub open spec fn valid_spec(self, len: int) -> bool {
        match self {
            ChildrenChange::Replace { .. } => true,
            ChildrenChange::InsertAt { index, .. } => index <= len,
            ChildrenChange::UpdateAt { index, .. } => index < len,
            ChildrenChange::RemoveAt { index } => index < len,
            ChildrenChange::Move { old_index, new_index } => old_index < len && new_index < len,
            ChildrenChange::Push { .. } => true,
            ChildrenChange::Pop => len > 0,
            ChildrenChange::Clear => true,
        }
    }

    /// Checks whether the change can be made to `len` children.
    pub fn is_valid(&self, len: usize) -> (r: bool)
        ensures
            r == self.valid_spec(len as int),
    {
        match self {
            ChildrenChange::Replace { .. } => true,
            ChildrenChange::InsertAt { index, .. } => *index <= len,
            ChildrenChange::UpdateAt { index, .. } => *index < len,
            ChildrenChange::RemoveAt { index } => *index < len,
            ChildrenChange::Move { old_index, new_index } => *old_index < len && *new_index < len,
            ChildrenChange::Push { .. } => true,
            ChildrenChange::Pop => len > 0,
            ChildrenChange::Clear => true,
        }
    }

    /// The children after the change.
    pub open spec fn apply_spec(self, children: Seq<Node>) -> Seq<Node> {
        match self {
            ChildrenChange::Replace { values } => values@,
            ChildrenChange::InsertAt { index, value } => children.insert(index as int, value),
            ChildrenChange::UpdateAt { index, value } => children.update(index as int, value),
            ChildrenChange::RemoveAt { index } => children.remove(index as int),
            ChildrenChange::Move { old_index, new_index } => children.remove(old_index as int).insert(new_index as int, children[old_index as int]),
            ChildrenChange::Push { value } => children.push(value),
            ChildrenChange::Pop => children.drop_last(),
            ChildrenChange::Clear => Seq::empty(),
        }
    }
}

/// Changes the children of a node. The layout then has to be done again.
pub fn update_children(children: &mut Vec<Node>, change: ChildrenChange) -> (r: BuilderChanged)
    requires
        change.valid_spec(old(children)@.len() as int),
    ensures
        final(children)@ == change.apply_spec(old(children)@),
        r == BuilderChanged::Layout,
{
    match change {
        ChildrenChange::Replace { values } => {
            *children = values;
        },
        ChildrenChange::InsertAt { index, value } => {
            children.insert(index, value);
        },
        ChildrenChange::UpdateAt { index, value } => {
            children.set(index, value);
        },
        ChildrenChange::RemoveAt { index } => {
            children.remove(index);
        },
        ChildrenChange::Move { old_index, new_index } => {
            let child = children.remove(old_index);
            children.insert(new_index, child);
        },
        ChildrenChange::Push { value } => {
            children.push(value);
        },
        ChildrenChange::Pop => {
            children.pop();
        },
        ChildrenChange::Clear => {
            children.clear();
        },
    }
    BuilderChanged::Layout
}

} // verus!
