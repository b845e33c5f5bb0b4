//! Border grids: nine children in three rows of three, where the corners
//! keep the size of the border, the edges stretch along it and the center
//! takes what is left.

use vstd::prelude::*;
use crate::number::{Percentage, plus, minus, gap};
use crate::number::{plus_spec, minus_spec, gap_spec};
use crate::error::LayoutError;
use crate::location::{Length, ScreenSize};
use crate::units::{RealPosition, RealSize, RealLocation, SmallestSize};

verus! {

/// The thickness of the border on each side.
#[derive(Clone, Copy, Debug, PartialEq, Eq, Structural)]
pub struct BorderSize {
    pub up: Length,
    pub down: Length,
    pub left: Length,
    pub right: Length,
}

/// The thickness of the border on each side, in screen space.
#[derive(Clone, Copy, Debug, PartialEq, Eq, Structural)]
pub struct RealBorder {
    pub up: Percentage,
    pub down: Percentage,
    pub left: Percentage,
    pub right: Percentage,
}

/// The places of the nine children.
#[derive(Clone, Copy, Debug, PartialEq, Eq, Structural)]
pub struct Places {
    pub up_left: RealLocation,
    pub up: RealLocation,
    pub up_right: RealLocation,
    pub left: RealLocation,
    pub center: RealLocation,
    pub right: RealLocation,
    pub down_left: RealLocation,
    pub down: RealLocation,
    pub down_right: RealLocation,
}

impl BorderSize {
    /// Uses the same [`Length`] for every side of the border.
    pub fn all(length: Length) -> (r: Self)
        ensures
            r == (BorderSize { up: length, down: length, left: length, right: length }),
    {
        BorderSize { up: length, down: length, left: length, right: length }
    }

    /// The space that the border takes on each axis, during measurement. The
    /// sides are resolved in the order up, down, left, right.
    pub open spec fn real_size_spec(self, parent: SmallestSize, screen: ScreenSize) -> Result<RealSize, LayoutError> {
        match self.up.known_spec(parent, screen.height) {
            Err(e) => Err(e),
            Ok(up) => match self.down.known_spec(parent, screen.height) {
                Err(e) => Err(e),
                Ok(down) => match self.left.known_spec(parent, screen.width) {
                    Err(e) => Err(e),
                    Ok(left) => match self.right.known_spec(parent, screen.width) {
                        Err(e) => Err(e),
                        Ok(right) => Ok(RealSize {
                            width: plus_spec(left as int, right as int) as i64,
                            height: plus_spec(up as int, down as int) as i64,
                        }),
                    },
                },
            },
        }
    }

    /// Calculates the space that the border takes, if every side is known.
    pub fn real_size(&self, parent: &SmallestSize, screen: &ScreenSize) -> (r: Result<RealSize, LayoutError>)
        ensures
            r == self.real_size_spec(*parent, *screen),
    {
        let up = match self.up.known(parent, &screen.height) {
            Ok(x) => x,
            Err(e) => { return Err(e); },
        };
        let down = match self.down.known(parent, &screen.height) {
            Ok(x) => x,
            Err(e) => { return Err(e); },
        };
        let left = match self.left.known(parent, &screen.width) {
            Ok(x) => x,
            Err(e) => { return Err(e); },
        };
        let right = match self.right.known(parent, &screen.width) {
            Ok(x) => x,
            Err(e) => { return Err(e); },
        };
        Ok(RealSize { width: plus(left, right), height: plus(up, down) })
    }

    /// The thickness of each side in screen space.
    pub open spec fn real_border_spec(self, parent: RealSize, smallest: RealSize, screen: ScreenSize) -> RealBorder {
        RealBorder {
            up: self.up.real_length_spec(parent, smallest, screen.height) as i64,
            down: self.down.real_length_spec(parent, smallest, screen.height) as i64,
            left: self.left.real_length_spec(parent, smallest, screen.width) as i64,
            right: self.right.real_length_spec(parent, smallest, screen.width) as i64,
        }
    }

    /// Converts the border into screen space.
    pub fn real_border(&self, parent: &RealSize, smallest: &RealSize, screen: &ScreenSize) -> (r: RealBorder)
        ensures
            r == self.real_border_spec(*parent, *smallest, *screen),
    {
        RealBorder {
            up: self.up.real_length(parent, smallest, &screen.height),
            down: self.down.real_length(parent, smallest, &screen.height),
            left: self.left.real_length(parent, smallest, &screen.width),
            right: self.right.real_length(parent, smallest, &screen.width),
        }
    }
}

/// The place of one child.
pub open spec fn at_spec(x: int, y: int, width: int, height: int, order: Percentage) -> RealLocation {
    RealLocation {
        position: RealPosition { x: x as i64, y: y as i64 },
        size: RealSize { width: width as i64, height: height as i64 },
        order,
    }
}

/// The places of the nine children of a border grid whose content is at
/// `this`. The corners are as large as the border. The center is what the
/// border leaves over, and never less than nothing. The lower and right
/// children start where the border's thickness is left before the far edge,
/// and never before the near one.
pub open spec fn places_spec(this: RealLocation, border: RealBorder) -> Places {
    let center_width = gap_spec(minus_spec(this.size.width as int, border.left as int), border.right as int);
    let center_height = gap_spec(minus_spec(this.size.height as int, border.up as int), border.down as int);
    let position_up = this.position.y as int;
    let position_down = plus_spec(position_up, gap_spec(this.size.height as int, border.down as int));
    let position_left = this.position.x as int;
    let position_right = plus_spec(position_left, gap_spec(this.size.width as int, border.right as int));
    let center_left = plus_spec(position_left, border.left as int);
    let center_up = plus_spec(position_up, border.up as int);
    Places {
        up_left: at_spec(position_left, position_up, border.left as int, border.up as int, this.order),
        up: at_spec(center_left, position_up, center_width, border.up as int, this.order),
        up_right: at_spec(position_right, position_up, border.right as int, border.up as int, this.order),
        left: at_spec(position_left, center_up, border.left as int, center_height, this.order),
        center: at_spec(center_left, center_up, center_width, center_height, this.order),
        right: at_spec(position_right, center_up, border.right as int, center_height, this.order),
        down_left: at_spec(position_left, position_down, border.left as int, border.down as int, this.order),
        down: at_spec(center_left, position_down, center_width, border.down as int, this.order),
        down_right: at_spec(position_right, position_down, border.right as int, border.down as int, this.order),
    }
}

fn at(x: Percentage, y: Percentage, width: Percentage, height: Percentage, order: Percentage) -> (r: RealLocation)
    ensures
        r == at_spec(x as int, y as int, width as int, height as int, order),
{
    RealLocation {
        position: RealPosition { x, y },
        size: RealSize { width, height },
        order,
    }
}

/// Places the nine children of a border grid.
pub fn places(this: &RealLocation, border: &RealBorder) -> (r: Places)
    ensures
        r == places_spec(*this, *border),
        r.center.size.width >= 0,
        r.center.size.height >= 0,
{
    let center_width = gap(minus(this.size.width, border.left), border.right);
    let center_height = gap(minus(this.size.height, border.up), border.down);
    let position_up = this.position.y;
    let position_down = plus(position_up, gap(this.size.height, border.down));
    let position_left = this.position.x;
    let position_right = plus(position_left, gap(this.size.width, border.right));
    let center_left = plus(position_left, border.left);
    let center_up = plus(position_up, border.up);
    Places {
        up_left: at(position_left, position_up, border.left, border.up, this.order),
        up: at(center_left, position_up, center_width, border.up, this.order),
        up_right: at(position_right, position_up, border.right, border.up, this.order),
        left: at(position_left, center_up, border.left, center_height, this.order),
        center: at(center_left, center_up, center_width, center_height, this.order),
        right: at(position_right, center_up, border.right, center_height, this.order),
        down_left: at(position_left, position_down, border.left, border.down, this.order),
        down: at(center_left, position_down, center_width, border.down, this.order),
        down_right: at(position_right, position_down, border.right, border.down, this.order),
    }
}

} // verus!
