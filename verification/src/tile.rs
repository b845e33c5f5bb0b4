//! Rectangles of pixels in a spritesheet.

use vstd::prelude::*;

verus! {

/// Specifies which tile should be displayed (in pixel coordinates).
#[derive(Clone, Copy, Debug, PartialEq, Eq, Structural)]
pub struct Tile {
    pub start_x: u32,
    pub start_y: u32,
    pub end_x: u32,
    pub end_y: u32,
}

impl Tile {
    /// The tile with its left and right edge exchanged.
    pub open spec fn mirror_x_spec(self) -> Self {
        Tile { start_x: self.end_x, start_y: self.start_y, end_x: self.start_x, end_y: self.end_y }
    }

    /// Flips the tile from left to right.
    pub fn mirror_x(self) -> (r: Self)
        ensures
            r == self.mirror_x_spec(),
    {
        Tile { start_x: self.end_x, start_y: self.start_y, end_x: self.start_x, end_y: self.end_y }
    }

    /// The tile with its upper and lower edge exchanged.
    pub open spec fn mirror_y_spec(self) -> Self {
        Tile { start_x: self.start_x, start_y: self.end_y, end_x: self.end_x, end_y: self.start_y }
    }

    /// Flips the tile upside down.
    pub fn mirror_y(self) -> (r: Self)
        ensures
            r == self.mirror_y_spec(),
    {
        Tile { start_x: self.start_x, start_y: self.end_y, end_x: self.end_x, end_y: self.start_y }
    }
}

/// Mirroring twice along the same axis gives the tile back, and the two
/// axes can be mirrored in either order.
pub proof fn lemma_mirror(tile: Tile)
    ensures
        tile.mirror_x_spec().mirror_x_spec() == tile,
        tile.mirror_y_spec().mirror_y_spec() == tile,
        tile.mirror_x_spec().mirror_y_spec() == tile.mirror_y_spec().mirror_x_spec(),
{
}

/// Nine tiles that lie in three rows of three, given by the corner of the
/// first and the widths and heights of the rows and columns.
#[derive(Clone, Copy, Debug, PartialEq, Eq, Structural)]
pub struct QuadrantGrid {
    pub start_x: u32,
    pub start_y: u32,
    pub up_height: u32,
    pub down_height: u32,
    pub left_width: u32,
    pub right_width: u32,
    pub center_width: u32,
    pub center_height: u32,
}

/// The tiles of the nine parts of a border.
#[derive(Clone, Copy, Debug, PartialEq, Eq, Structural)]
pub struct TileQuadrants {
    pub up: Tile,
    pub down: Tile,
    pub left: Tile,
    pub right: Tile,
    pub center: Tile,
    pub up_left: Tile,
    pub up_right: Tile,
    pub down_left: Tile,
    pub down_right: Tile,
}

impl QuadrantGrid {
    /// Nine tiles of the same size.
    pub fn equal_size(start_x: u32, start_y: u32, tile_width: u32, tile_height: u32) -> (r: Self)
        ensures
            r == (QuadrantGrid {
                start_x,
                start_y,
                up_height: tile_height,
                down_height: tile_height,
                left_width: tile_width,
                right_width: tile_width,
                center_width: tile_width,
                center_height: tile_height,
            }),
    {
        QuadrantGrid {
            start_x,
            start_y,
            up_height: tile_height,
            down_height: tile_height,
            left_width: tile_width,
            right_width: tile_width,
            center_width: tile_width,
            center_height: tile_height,
        }
    }

    /// Whether the far corner of the nine tiles is within reach of `u32`.
    pub open spec fn fits(self) -> bool {
        &&& self.start_x + self.left_width + self.center_width + self.right_width <= u32::MAX
        &&& self.start_y + self.up_height + self.center_height + self.down_height <= u32::MAX
    }

    /// The nine tiles: the columns begin at `start_x` and are as wide as the
    /// left, the center and the right; the rows begin at `start_y` and are as
    /// high as the upper, the center and the lower.
    pub open spec fn quadrants_spec(self) -> TileQuadrants {
        let x1 = self.start_x;
        let x2 = (x1 + self.left_width) as u32;
        let x3 = (x2 + self.center_width) as u32;
        let x4 = (x3 + self.right_width) as u32;
        let y1 = self.start_y;
        let y2 = (y1 + self.up_height) as u32;
        let y3 = (y2 + self.center_height) as u32;
        let y4 = (y3 + self.down_height) as u32;
        TileQuadrants {
            up_left: Tile { start_x: x1, start_y: y1, end_x: x2, end_y: y2 },
            up: Tile { start_x: x2, start_y: y1, end_x: x3, end_y: y2 },
            up_right: Tile { start_x: x3, start_y: y1, end_x: x4, end_y: y2 },
            left: Tile { start_x: x1, start_y: y2, end_x: x2, end_y: y3 },
            center: Tile { start_x: x2, start_y: y2, end_x: x3, end_y: y3 },
            right: Tile { start_x: x3, start_y: y2, end_x: x4, end_y: y3 },
            down_left: Tile { start_x: x1, start_y: y3, end_x: x2, end_y: y4 },
            down: Tile { start_x: x2, start_y: y3, end_x: x3, end_y: y4 },
            down_right: Tile { start_x: x3, start_y: y3, end_x: x4, end_y: y4 },
        }
    }

    /// Cuts the nine tiles out of the spritesheet.
    pub fn quadrants(self) -> (r: TileQuadrants)
        requires
            self.fits(),
        ensures
            r == self.quadrants_spec(),
    {
        let x1 = self.start_x;
        let x2 = x1 + self.left_width;
        let x3 = x2 + self.center_width;
        let x4 = x3 + self.right_width;
        let y1 = self.start_y;
        let y2 = y1 + self.up_height;
        let y3 = y2 + self.center_height;
        let y4 = y3 + self.down_height;
        TileQuadrants {
            up_left: Tile { start_x: x1, start_y: y1, end_x: x2, end_y: y2 },
            up: Tile { start_x: x2, start_y: y1, end_x: x3, end_y: y2 },
            up_right: Tile { start_x: x3, start_y: y1, end_x: x4, end_y: y2 },
            left: Tile { start_x: x1, start_y: y2, end_x: x2, end_y: y3 },
            center: Tile { start_x: x2, start_y: y2, end_x: x3, end_y: y3 },
            right: Tile { start_x: x3, start_y: y2, end_x: x4, end_y: y3 },
            down_left: Tile { start_x: x1, start_y: y3, end_x: x2, end_y: y4 },
            down: Tile { start_x: x2, start_y: y3, end_x: x3, end_y: y4 },
            down_right: Tile { start_x: x3, start_y: y3, end_x: x4, end_y: y4 },
        }
    }
}

} // verus!
