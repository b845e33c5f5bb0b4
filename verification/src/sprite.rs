//! Sprites: the leaves of the scene, each a tile of a spritesheet.

use vstd::prelude::*;
use crate::number::{Percentage, UNIT, minus, over};
use crate::number::{minus_spec, over_spec};
use crate::error::LayoutError;
use crate::bitmap_text::ColorRgb;
use crate::handles::Handle;
use crate::location::{Length, Location, ScreenLength, ScreenSize};
use crate::tile::Tile;
use crate::units::{RealPosition, RealSize, RealLocation};

verus! {

/// How often a tile is repeated along one axis of a sprite.
#[derive(Clone, Copy, Debug, PartialEq, Eq, Structural)]
pub enum Repeat {
    /// Don't repeat, stretches to fill the entire sprite.
    Stretch,
    /// Repeats the tile every length.
    ///
    /// # Sizing
    ///
    /// * [`Length::SmallestWidth`]: the smallest width of the Sprite.
    ///
    /// * [`Length::SmallestHeight`]: the smallest height of the Sprite.
    Length(Length),
    /// Repeats the tile a certain number of times.
    Count(Percentage),
}

impl Repeat {
    /// How often the tile is drawn along an axis that is `distance` long.
    pub open spec fn to_uv_spec(self, parent: RealSize, smallest: RealSize, screen: ScreenLength, distance: Percentage) -> int {
        match self {
            Repeat::Stretch => UNIT as int,
            Repeat::Length(length) => over_spec(distance as int, length.real_length_spec(parent, smallest, screen)),
            Repeat::Count(count) => count as int,
        }
    }

    /// Returns how often the tile is drawn along an axis.
    pub fn to_uv(&self, parent: &RealSize, smallest: &RealSize, screen: &ScreenLength, distance: Percentage) -> (r: Percentage)
        ensures
            r == self.to_uv_spec(*parent, *smallest, *screen, distance),
    {
        match self {
            Repeat::Stretch => UNIT,
            Repeat::Length(length) => over(distance, length.real_length(parent, smallest, screen)),
            Repeat::Count(count) => *count,
        }
    }
}

impl Default for Repeat {
    /// Returns [`Repeat::Stretch`].
    fn default() -> (r: Self)
        ensures
            r == Repeat::Stretch,
    {
        Repeat::Stretch
    }
}

/// Specifies the repetition of the sprite tile.
#[derive(Clone, Copy, Debug, PartialEq, Eq, Structural)]
pub struct RepeatTile {
    pub width: Repeat,
    pub height: Repeat,
}

impl RepeatTile {
    /// How often the tile is drawn along each axis of a sprite of size
    /// `this`.
    pub open spec fn to_uv_spec(self, this: RealSize, parent: RealSize, smallest: RealSize, screen: ScreenSize) -> RealSize {
        RealSize {
            width: self.width.to_uv_spec(parent, smallest, screen.width, this.width) as i64,
            height: self.height.to_uv_spec(parent, smallest, screen.height, this.height) as i64,
        }
    }

    /// Returns how often the tile is drawn along each axis.
    pub fn to_uv(&self, this: &RealSize, parent: &RealSize, smallest: &RealSize, screen: &ScreenSize) -> (r: RealSize)
        ensures
            r == self.to_uv_spec(*this, *parent, *smallest, *screen),
    {
        RealSize {
            width: self.width.to_uv(parent, smallest, &screen.width, this.width),
            height: self.height.to_uv(parent, smallest, &screen.height, this.height),
        }
    }
}

impl Default for RepeatTile {
    /// No repetition.
    fn default() -> (r: Self)
        ensures
            r == (RepeatTile { width: Repeat::Stretch, height: Repeat::Stretch }),
    {
        RepeatTile { width: Repeat::Stretch, height: Repeat::Stretch }
    }
}

/// A texture that is cut into tiles.
#[derive(Clone, Copy, Debug, PartialEq, Eq, Structural)]
pub struct Spritesheet {
    pub handle: Handle,
}

impl Spritesheet {
    /// The spritesheet that `handle` names.
    pub fn new(handle: Handle) -> (r: Self)
        ensures
            r.handle == handle,
    {
        Spritesheet { handle }
    }
}

/// A texture.
#[derive(Clone, Copy, Debug, PartialEq, Eq, Structural)]
pub struct Texture {
    pub handle: Handle,
}

impl Texture {
    /// The texture that `handle` names.
    pub fn new(handle: Handle) -> (r: Self)
        ensures
            r.handle == handle,
    {
        Texture { handle }
    }
}

/// What the renderer knows of a spritesheet that is loaded.
#[derive(Clone, Copy, Debug, PartialEq, Eq, Structural)]
pub struct SpritesheetState {
    /// Whether the spritesheet's colours come from a palette.
    pub has_palette: bool,
}

/// Displays a sprite from a spritesheet.
///
/// # Sizing
///
/// * [`Length::SmallestWidth`]: it is an error to use `SmallestWidth`.
///
/// * [`Length::SmallestHeight`]: it is an error to use `SmallestHeight`.
#[derive(Clone, Copy, Debug, PartialEq, Eq, Structural)]
pub struct Sprite {
    pub visible: bool,
    pub location: Location,
    /// The spritesheet, which every sprite must have.
    pub spritesheet: Option<Spritesheet>,
    pub repeat_tile: RepeatTile,
    /// One means fully opaque, zero means fully transparent.
    pub alpha: Percentage,
    /// Which tile to display (in pixel coordinates).
    pub tile: Tile,
    pub palette: Option<u32>,
}

/// What the renderer draws for one sprite or one character, in clip space:
/// `position` is the lower-left corner.
#[derive(Clone, Copy, Debug, PartialEq, Eq, Structural)]
pub struct Instance {
    pub position: RealPosition,
    pub size: RealSize,
    pub order: Percentage,
    pub alpha: Percentage,
    /// How often the tile is drawn along each axis.
    pub uv: RealSize,
    pub tile: Tile,
}

/// One sprite to draw, and the spritesheet to draw it from.
#[derive(Clone, Copy, Debug, PartialEq, Eq, Structural)]
pub struct SpriteInstance {
    pub spritesheet: Handle,
    pub instance: Instance,
    pub palette: Option<u32>,
}

/// One character to draw, and the font to draw it from.
#[derive(Clone, Copy, Debug, PartialEq, Eq, Structural)]
pub struct GlyphInstance {
    pub font: Handle,
    pub instance: Instance,
    pub color: ColorRgb,
}

impl Instance {
    /// Whether the instance is drawn without blending.
    pub fn is_opaque(&self) -> (r: bool)
        ensures
            r == (self.alpha == UNIT),
    {
        self.alpha == UNIT
    }

    /// The place of an instance at `location`: in clip space, from its
    /// lower-left corner. An order below one is an error.
    pub open spec fn place_spec(location: RealLocation) -> Result<(RealPosition, RealSize), LayoutError> {
        if location.order < UNIT {
            Err(LayoutError::OrderTooLow)
        } else {
            let clip = location.clip_space_spec();
            Ok((
                RealPosition {
                    x: clip.position.x,
                    y: minus_spec(clip.position.y as int, clip.size.height as int) as i64,
                },
                clip.size,
            ))
        }
    }

    /// Converts a location into the place that the renderer draws at.
    pub fn place(location: &RealLocation) -> (r: Result<(RealPosition, RealSize), LayoutError>)
        ensures
            r == Self::place_spec(*location),
    {
        if location.order < UNIT {
            Err(LayoutError::OrderTooLow)
        } else {
            let clip = location.convert_to_wgpu_coordinates();
            Ok((
                RealPosition {
                    // The origin point of our sprites is in the upper-left corner,
                    // but in clip space the origin point is in the lower-left corner.
                    x: clip.position.x,
                    y: minus(clip.position.y, clip.size.height),
                },
                clip.size,
            ))
        }
    }
}

impl Sprite {
    /// A visible, opaque sprite that fills its parent and shows nothing yet.
    pub fn new() -> (r: Self)
        ensures
            r == (Sprite {
                visible: true,
                location: Location::default_spec(),
                spritesheet: None,
                repeat_tile: RepeatTile { width: Repeat::Stretch, height: Repeat::Stretch },
                alpha: UNIT,
                tile: Tile { start_x: 0, start_y: 0, end_x: 0, end_y: 0 },
                palette: None,
            }),
    {
        Sprite {
            visible: true,
            location: Location::default(),
            spritesheet: None,
            repeat_tile: RepeatTile::default(),
            alpha: UNIT,
            tile: Tile { start_x: 0, start_y: 0, end_x: 0, end_y: 0 },
            palette: None,
        }
    }

    /// Where the sprite is on the screen, inside a parent at `parent`.
    pub open spec fn location_spec(self, parent: RealLocation, smallest: RealSize, screen: ScreenSize, max_order: Percentage) -> RealLocation {
        self.location.children_location_spec(parent, smallest, screen, max_order)
    }

    /// What the renderer draws for the sprite. The place is that of the
    /// sprite's location; the tile, the alpha and the repetition are the
    /// sprite's own.
    pub open spec fn instance_spec(self, parent: RealLocation, smallest: RealSize, screen: ScreenSize, max_order: Percentage) -> Result<Instance, LayoutError> {
        let location = self.location_spec(parent, smallest, screen, max_order);
        match Instance::place_spec(location) {
            Err(e) => Err(e),
            Ok((position, size)) => Ok(Instance {
                position,
                size,
                order: location.order,
                alpha: self.alpha,
                uv: self.repeat_tile.to_uv_spec(location.size, parent.size, smallest, screen),
                tile: self.tile,
            }),
        }
    }

    /// Computes what the renderer draws for the sprite.
    pub fn instance(&self, parent: &RealLocation, smallest: &RealSize, screen: &ScreenSize, max_order: Percentage) -> (r: Result<Instance, LayoutError>)
        ensures
            r == self.instance_spec(*parent, *smallest, *screen, max_order),
    {
        let location = self.location.children_location_explicit(parent, smallest, screen, max_order);
        let uv = self.repeat_tile.to_uv(&location.size, &parent.size, smallest, screen);
        match Instance::place(&location) {
            Err(e) => Err(e),
            Ok((position, size)) => Ok(Instance {
                position,
                size,
                order: location.order,
                alpha: self.alpha,
                uv,
                tile: self.tile,
            }),
        }
    }
}

} // verus!
