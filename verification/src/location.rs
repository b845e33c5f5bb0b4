//! What an author declares of a node: its size, offset, padding, origin and
//! order, each in [`Length`]s, and how a declaration becomes a place on the
//! screen.

use vstd::prelude::*;
use crate::number::{Percentage, UNIT, plus, minus, gap, times, scale};
use crate::number::{plus_spec, minus_spec, gap_spec, times_spec, scale_spec};
use crate::error::LayoutError;
use crate::units::{RealPosition, RealSize, RealPadding, RealLocation, SmallestLength, SmallestSize};

verus! {

/// One axis of the screen.
#[derive(Clone, Copy, Debug, PartialEq, Eq, Structural)]
pub struct ScreenLength {
    /// The width / height of the screen in pixels.
    pub pixels: u32,
    /// The screen's width and height as fractions of this axis.
    pub ratio: RealSize,
}

/// The size of the screen.
#[derive(Clone, Copy, Debug, PartialEq, Eq, Structural)]
pub struct ScreenSize {
    pub width: ScreenLength,
    pub height: ScreenLength,
}

impl ScreenSize {
    /// The screen of `pixel_width` by `pixel_height` pixels.
    pub open spec fn new_spec(pixel_width: u32, pixel_height: u32) -> Self {
        ScreenSize {
            width: ScreenLength {
                pixels: pixel_width,
                ratio: RealSize {
                    width: UNIT,
                    height: scale_spec(UNIT as int, pixel_height as int, pixel_width as int) as i64,
                },
            },
            height: ScreenLength {
                pixels: pixel_height,
                ratio: RealSize {
                    width: scale_spec(UNIT as int, pixel_width as int, pixel_height as int) as i64,
                    height: UNIT,
                },
            },
        }
    }

    /// Describes a screen by its size in pixels.
    pub fn new(pixel_width: u32, pixel_height: u32) -> (r: Self)
        ensures
            r == Self::new_spec(pixel_width, pixel_height),
    {
        let width = ScreenLength {
            pixels: pixel_width,
            ratio: RealSize { width: UNIT, height: scale(UNIT, pixel_height as i64, pixel_width as i64) },
        };
        let height = ScreenLength {
            pixels: pixel_height,
            ratio: RealSize { width: scale(UNIT, pixel_width as i64, pixel_height as i64), height: UNIT },
        };
        ScreenSize { width, height }
    }
}

/// Used for [`Offset`] / [`Size`] / [`Padding`].
#[derive(Clone, Copy, Debug, PartialEq, Eq, Structural)]
pub enum Length {
    /// Zero length. Useful for [`Offset`] and [`Padding`].
    Zero,
    /// Pixel length.
    Px(i32),
    /// Fraction of the screen's width.
    ScreenWidth(Percentage),
    /// Fraction of the screen's height.
    ScreenHeight(Percentage),
    /// Fraction of the parent space's width.
    ParentWidth(Percentage),
    /// Fraction of the parent space's height.
    ParentHeight(Percentage),
    /// Fraction of the smallest possible width for this node.
    ///
    /// Each node type has its own algorithm for determining its smallest width.
    SmallestWidth(Percentage),
    /// Fraction of the smallest possible height for this node.
    ///
    /// Each node type has its own algorithm for determining its smallest height.
    SmallestHeight(Percentage),
}

impl Length {
    /// `x` pixels as a fraction of an axis of `pixels` pixels.
    pub open spec fn pixels_spec(x: i32, screen: ScreenLength) -> int {
        scale_spec(UNIT as int, x as int, screen.pixels as int)
    }

    /// The length as far as the screen alone resolves it.
    pub open spec fn smallest_length_spec(self, screen: ScreenLength) -> SmallestLength {
        match self {
            Length::Zero => SmallestLength::Screen(0),
            Length::Px(x) => SmallestLength::Screen(Self::pixels_spec(x, screen) as i64),
            Length::ScreenWidth(x) => SmallestLength::Screen(times_spec(x as int, screen.ratio.width as int) as i64),
            Length::ScreenHeight(x) => SmallestLength::Screen(times_spec(x as int, screen.ratio.height as int) as i64),
            Length::ParentWidth(x) => SmallestLength::ParentWidth(x),
            Length::ParentHeight(x) => SmallestLength::ParentHeight(x),
            Length::SmallestWidth(x) => SmallestLength::SmallestWidth(x),
            Length::SmallestHeight(x) => SmallestLength::SmallestHeight(x),
        }
    }

    /// Resolves pixels and screen fractions at once; lengths relative to the
    /// parent or to the content stay symbolic.
    pub fn smallest_length(&self, screen: &ScreenLength) -> (r: SmallestLength)
        ensures
            r == self.smallest_length_spec(*screen),
    {
        match *self {
            Length::Zero => SmallestLength::Screen(0),
            Length::Px(x) => SmallestLength::Screen(scale(UNIT, x as i64, screen.pixels as i64)),
            Length::ScreenWidth(x) => SmallestLength::Screen(times(x, screen.ratio.width)),
            Length::ScreenHeight(x) => SmallestLength::Screen(times(x, screen.ratio.height)),
            Length::ParentWidth(x) => SmallestLength::ParentWidth(x),
            Length::ParentHeight(x) => SmallestLength::ParentHeight(x),
            Length::SmallestWidth(x) => SmallestLength::SmallestWidth(x),
            Length::SmallestHeight(x) => SmallestLength::SmallestHeight(x),
        }
    }

    /// The length in screen space, given the parent's size and the measured
    /// content.
    pub open spec fn real_length_spec(self, parent: RealSize, smallest: RealSize, screen: ScreenLength) -> int {
        match self {
            Length::Zero => 0,
            Length::Px(x) => Self::pixels_spec(x, screen),
            Length::ScreenWidth(x) => times_spec(x as int, screen.ratio.width as int),
            Length::ScreenHeight(x) => times_spec(x as int, screen.ratio.height as int),
            Length::ParentWidth(x) => times_spec(x as int, parent.width as int),
            Length::ParentHeight(x) => times_spec(x as int, parent.height as int),
            Length::SmallestWidth(x) => times_spec(x as int, smallest.width as int),
            Length::SmallestHeight(x) => times_spec(x as int, smallest.height as int),
        }
    }

    /// Converts from local space into screen space.
    pub fn real_length(&self, parent: &RealSize, smallest: &RealSize, screen: &ScreenLength) -> (r: Percentage)
        ensures
            r == self.real_length_spec(*parent, *smallest, *screen),
    {
        match *self {
            Length::Zero => 0,
            Length::Px(x) => scale(UNIT, x as i64, screen.pixels as i64),
            Length::ScreenWidth(x) => times(x, screen.ratio.width),
            Length::ScreenHeight(x) => times(x, screen.ratio.height),
            Length::ParentWidth(x) => times(x, parent.width),
            Length::ParentHeight(x) => times(x, parent.height),
            Length::SmallestWidth(x) => times(x, smallest.width),
            Length::SmallestHeight(x) => times(x, smallest.height),
        }
    }

    /// The length resolved against a parent that must make it known: pixels,
    /// screen fractions, and parent fractions of a known axis.
    pub open spec fn known_spec(self, parent: SmallestSize, screen: ScreenLength) -> Result<Percentage, LayoutError> {
        self.smallest_length_spec(screen).parent_to_screen_spec(parent).screen_spec()
    }

    /// Resolves a length that may depend on the parent but not on content.
    pub fn known(&self, parent: &SmallestSize, screen: &ScreenLength) -> (r: Result<Percentage, LayoutError>)
        ensures
            r == self.known_spec(*parent, *screen),
    {
        self.smallest_length(screen).parent_to_screen(parent).screen()
    }
}

impl Default for Length {
    /// Returns [`Length::Zero`].
    fn default() -> (r: Self)
        ensures
            r == Length::Zero,
    {
        Length::Zero
    }
}

/// Empty space around the node.
///
/// The padding does not increase the size, instead the empty
/// space is created by subtracting from the node's size.
///
/// The default is no padding.
#[derive(Clone, Copy, Debug, PartialEq, Eq, Structural)]
pub struct Padding {
    pub up: Length,
    pub down: Length,
    pub left: Length,
    pub right: Length,
}

impl Padding {
    /// Uses the same [`Length`] for every side of the padding.
    pub fn all(length: Length) -> (r: Self)
        ensures
            r == (Padding { up: length, down: length, left: length, right: length }),
    {
        Padding { up: length, down: length, left: length, right: length }
    }

    /// One side of the padding during measurement.
    pub open spec fn side_spec(side: Length, parent: SmallestSize, smallest: SmallestSize, screen: ScreenLength) -> Result<Percentage, LayoutError> {
        side.smallest_length_spec(screen).to_screen_spec(parent, smallest).screen_spec()
    }

    /// The space that the padding takes on each axis, during measurement.
    /// The sides are resolved in the order up, down, left, right, and the
    /// first that is not known decides the error.
    pub open spec fn to_screen_spec(self, parent: SmallestSize, smallest: SmallestSize, screen: ScreenSize) -> Result<RealSize, LayoutError> {
        match Self::side_spec(self.up, parent, smallest, screen.height) {
            Err(e) => Err(e),
            Ok(up) => match Self::side_spec(self.down, parent, smallest, screen.height) {
                Err(e) => Err(e),
                Ok(down) => match Self::side_spec(self.left, parent, smallest, screen.width) {
                    Err(e) => Err(e),
                    Ok(left) => match Self::side_spec(self.right, parent, smallest, screen.width) {
                        Err(e) => Err(e),
                        Ok(right) => Ok(RealSize {
                            width: plus_spec(left as int, right as int) as i64,
                            height: plus_spec(up as int, down as int) as i64,
                        }),
                    },
                },
            },
        }
    }

    fn side(side: &Length, parent: &SmallestSize, smallest: &SmallestSize, screen: &ScreenLength) -> (r: Result<Percentage, LayoutError>)
        ensures
            r == Self::side_spec(*side, *parent, *smallest, *screen),
    {
        side.smallest_length(screen).to_screen(parent, smallest).screen()
    }

    /// Calculates the space that the padding takes, if every side is known.
    pub fn to_screen(&self, parent: &SmallestSize, smallest: &SmallestSize, screen: &ScreenSize) -> (r: Result<RealSize, LayoutError>)
        ensures
            r == self.to_screen_spec(*parent, *smallest, *screen),
    {
        let up = match Self::side(&self.up, parent, smallest, &screen.height) {
            Ok(x) => x,
            Err(e) => { return Err(e); },
        };
        let down = match Self::side(&self.down, parent, smallest, &screen.height) {
            Ok(x) => x,
            Err(e) => { return Err(e); },
        };
        let left = match Self::side(&self.left, parent, smallest, &screen.width) {
            Ok(x) => x,
            Err(e) => { return Err(e); },
        };
        let right = match Self::side(&self.right, parent, smallest, &screen.width) {
            Ok(x) => x,
            Err(e) => { return Err(e); },
        };
        Ok(RealSize { width: plus(left, right), height: plus(up, down) })
    }

    /// The padding in screen space.
    pub open spec fn real_padding_spec(self, parent: RealSize, smallest: RealSize, screen: ScreenSize) -> RealPadding {
        RealPadding {
            up: self.up.real_length_spec(parent, smallest, screen.height) as i64,
            down: self.down.real_length_spec(parent, smallest, screen.height) as i64,
            left: self.left.real_length_spec(parent, smallest, screen.width) as i64,
            right: self.right.real_length_spec(parent, smallest, screen.width) as i64,
        }
    }

    /// Converts the padding into screen space.
    pub fn real_padding(&self, parent: &RealSize, smallest: &RealSize, screen: &ScreenSize) -> (r: RealPadding)
        ensures
            r == self.real_padding_spec(*parent, *smallest, *screen),
    {
        let up = self.up.real_length(parent, smallest, &screen.height);
        let down = self.down.real_length(parent, smallest, &screen.height);
        let left = self.left.real_length(parent, smallest, &screen.width);
        let right = self.right.real_length(parent, smallest, &screen.width);
        RealPadding { up, down, left, right }
    }
}

impl Default for Padding {
    /// No padding.
    fn default() -> (r: Self)
        ensures
            r == (Padding { up: Length::Zero, down: Length::Zero, left: Length::Zero, right: Length::Zero }),
    {
        Padding::all(Length::Zero)
    }
}

/// Specifies which nodes should be drawn on top of other nodes.
///
/// The smallest order is one ([`UNIT`]), nodes with a bigger order are drawn
/// on top of nodes with a smaller order.
///
/// The default order is `Order::Above(UNIT)` which means the node will
/// display on top of all previous nodes.
#[derive(Clone, Copy, Debug, PartialEq, Eq, Structural)]
pub enum Order {
    /// Ordering which is global to the entire scene.
    Global(Percentage),
    /// Ordering which is added to the parent's order.
    Parent(Percentage),
    /// Ordering which is added on top of all previous rendered nodes.
    Above(Percentage),
}

impl Order {
    /// The order of a node whose parent has order `parent`, when the highest
    /// order given out so far in the pass is `max_order`.
    pub open spec fn resolve_spec(self, parent: Percentage, max_order: Percentage) -> int {
        match self {
            Order::Global(x) => x as int,
            Order::Parent(x) => plus_spec(parent as int, x as int),
            Order::Above(x) => plus_spec(max_order as int, x as int),
        }
    }

    /// Resolves the order policy into an order.
    pub fn resolve(&self, parent: Percentage, max_order: Percentage) -> (r: Percentage)
        ensures
            r == self.resolve_spec(parent, max_order),
    {
        match *self {
            Order::Global(x) => x,
            Order::Parent(x) => plus(parent, x),
            Order::Above(x) => plus(max_order, x),
        }
    }
}

impl Default for Order {
    /// Returns `Order::Above(UNIT)`.
    fn default() -> (r: Self)
        ensures
            r == Order::Above(UNIT),
    {
        Order::Above(UNIT)
    }
}

/// Offset x / y (relative to the parent) which is added to the parent's x / y.
///
/// The default is `{ x: Zero, y: Zero }` which means no offset.
#[derive(Clone, Copy, Debug, PartialEq, Eq, Structural)]
pub struct Offset {
    pub x: Length,
    pub y: Length,
}

impl Offset {
    /// The offset in screen space.
    pub open spec fn real_position_spec(self, parent: RealSize, smallest: RealSize, screen: ScreenSize) -> RealPosition {
        RealPosition {
            x: self.x.real_length_spec(parent, smallest, screen.width) as i64,
            y: self.y.real_length_spec(parent, smallest, screen.height) as i64,
        }
    }

    /// Converts the offset into screen space.
    pub fn real_position(&self, parent: &RealSize, smallest: &RealSize, screen: &ScreenSize) -> (r: RealPosition)
        ensures
            r == self.real_position_spec(*parent, *smallest, *screen),
    {
        let x = self.x.real_length(parent, smallest, &screen.width);
        let y = self.y.real_length(parent, smallest, &screen.height);
        RealPosition { x, y }
    }
}

impl Default for Offset {
    /// No offset.
    fn default() -> (r: Self)
        ensures
            r == (Offset { x: Length::Zero, y: Length::Zero }),
    {
        Offset { x: Length::Zero, y: Length::Zero }
    }
}

/// Width / height relative to the parent space.
///
/// The default is `{ width: ParentWidth(UNIT), height: ParentHeight(UNIT) }`
/// which means it's the same size as its parent.
#[derive(Clone, Copy, Debug, PartialEq, Eq, Structural)]
pub struct Size {
    pub width: Length,
    pub height: Length,
}

impl Size {
    /// The size as far as the screen alone resolves it.
    pub open spec fn smallest_size_spec(self, screen: ScreenSize) -> SmallestSize {
        SmallestSize {
            width: self.width.smallest_length_spec(screen.width),
            height: self.height.smallest_length_spec(screen.height),
        }
    }

    /// Resolves what the screen alone makes known of the size.
    pub fn smallest_size(&self, screen: &ScreenSize) -> (r: SmallestSize)
        ensures
            r == self.smallest_size_spec(*screen),
    {
        let width = self.width.smallest_length(&screen.width);
        let height = self.height.smallest_length(&screen.height);
        SmallestSize { width, height }
    }

    /// The size in screen space.
    pub open spec fn real_size_spec(self, parent: RealSize, smallest: RealSize, screen: ScreenSize) -> RealSize {
        RealSize {
            width: self.width.real_length_spec(parent, smallest, screen.width) as i64,
            height: self.height.real_length_spec(parent, smallest, screen.height) as i64,
        }
    }

    /// Converts the size into screen space.
    pub fn real_size(&self, parent: &RealSize, smallest: &RealSize, screen: &ScreenSize) -> (r: RealSize)
        ensures
            r == self.real_size_spec(*parent, *smallest, *screen),
    {
        let width = self.width.real_length(parent, smallest, &screen.width);
        let height = self.height.real_length(parent, smallest, &screen.height);
        RealSize { width, height }
    }
}

impl Default for Size {
    /// The size of the parent.
    fn default() -> (r: Self)
        ensures
            r == (Size { width: Length::ParentWidth(UNIT), height: Length::ParentHeight(UNIT) }),
    {
        Size { width: Length::ParentWidth(UNIT), height: Length::ParentHeight(UNIT) }
    }
}

/// Position relative to the parent.
///
/// By default, the origin is `{ x: 0, y: 0 }` which means that it will be
/// positioned in the upper-left corner of the parent.
///
/// But if you change it to `{ x: UNIT, y: UNIT }` then it will now be
/// positioned in the lower-right corner of the parent.
///
/// And `{ x: UNIT / 2, y: UNIT / 2 }` will place it in the center of the
/// parent.
#[derive(Clone, Copy, Debug, PartialEq, Eq, Structural)]
pub struct Origin {
    pub x: Percentage,
    pub y: Percentage,
}

impl Default for Origin {
    /// The upper-left corner.
    fn default() -> (r: Self)
        ensures
            r == (Origin { x: 0, y: 0 }),
    {
        Origin { x: 0, y: 0 }
    }
}

/// Describes the position of the Node relative to its parent.
#[derive(Clone, Copy, Debug, PartialEq, Eq, Structural)]
pub struct Location {
    /// Offset which is added to the Node's position.
    pub offset: Offset,
    /// Width / height relative to the parent.
    pub size: Size,
    /// Empty space in the cardinal directions.
    pub padding: Padding,
    /// Origin point for the Node relative to the parent.
    pub origin: Origin,
    /// Specifies which nodes should be on top of other nodes.
    pub order: Order,
}

impl Location {
    /// Where the origin puts a node of size `own` along an axis of a parent of
    /// size `outer`: the anchor's share of the room that is left over.
    pub open spec fn anchor_spec(outer: Percentage, own: Percentage, anchor: Percentage) -> int {
        times_spec(minus_spec(outer as int, own as int), anchor as int)
    }

    /// The place that the node offers to its children: the parent's position
    /// moved by origin, padding and offset; the declared size less the
    /// padding, never below zero; and the order that the policy resolves to.
    pub open spec fn children_location_spec(self, parent: RealLocation, smallest: RealSize, screen: ScreenSize, max_order: Percentage) -> RealLocation {
        let size = self.size.real_size_spec(parent.size, smallest, screen);
        let offset = self.offset.real_position_spec(parent.size, smallest, screen);
        let padding = self.padding.real_padding_spec(parent.size, smallest, screen);
        let origin_x = Self::anchor_spec(parent.size.width, size.width, self.origin.x);
        let origin_y = Self::anchor_spec(parent.size.height, size.height, self.origin.y);
        RealLocation {
            position: RealPosition {
                x: plus_spec(plus_spec(plus_spec(parent.position.x as int, origin_x), padding.left as int), offset.x as int) as i64,
                y: plus_spec(plus_spec(plus_spec(parent.position.y as int, origin_y), padding.up as int), offset.y as int) as i64,
            },
            size: RealSize {
                width: gap_spec(minus_spec(size.width as int, padding.left as int), padding.right as int) as i64,
                height: gap_spec(minus_spec(size.height as int, padding.up as int), padding.down as int) as i64,
            },
            order: self.order.resolve_spec(parent.order, max_order) as i64,
        }
    }

    /// Calculates the place of the node's content on the screen.
    pub fn children_location_explicit(&self, parent: &RealLocation, smallest: &RealSize, screen: &ScreenSize, max_order: Percentage) -> (r: RealLocation)
        ensures
            r == self.children_location_spec(*parent, *smallest, *screen, max_order),
            r.size.width >= 0,
            r.size.height >= 0,
    {
        let size = self.size.real_size(&parent.size, smallest, screen);
        let offset = self.offset.real_position(&parent.size, smallest, screen);
        let padding = self.padding.real_padding(&parent.size, smallest, screen);
        let origin_x = times(minus(parent.size.width, size.width), self.origin.x);
        let origin_y = times(minus(parent.size.height, size.height), self.origin.y);
        RealLocation {
            position: RealPosition {
                x: plus(plus(plus(parent.position.x, origin_x), padding.left), offset.x),
                y: plus(plus(plus(parent.position.y, origin_y), padding.up), offset.y),
            },
            size: RealSize {
                width: gap(minus(size.width, padding.left), padding.right),
                height: gap(minus(size.height, padding.up), padding.down),
            },
            order: self.order.resolve(parent.order, max_order),
        }
    }
}

impl Location {
    /// The location that nothing has been declared of: the parent's place,
    /// drawn above everything before it.
    pub open spec fn default_spec() -> Self {
        Location {
            offset: Offset { x: Length::Zero, y: Length::Zero },
            size: Size { width: Length::ParentWidth(UNIT), height: Length::ParentHeight(UNIT) },
            padding: Padding { up: Length::Zero, down: Length::Zero, left: Length::Zero, right: Length::Zero },
            origin: Origin { x: 0, y: 0 },
            order: Order::Above(UNIT),
        }
    }
}

impl Default for Location {
    /// The parent's place, drawn above everything before it.
    fn default() -> (r: Self)
        ensures
            r == Location::default_spec(),
    {
        Location {
            offset: Offset { x: Length::Zero, y: Length::Zero },
            size: Size { width: Length::ParentWidth(UNIT), height: Length::ParentHeight(UNIT) },
            padding: Padding { up: Length::Zero, down: Length::Zero, left: Length::Zero, right: Length::Zero },
            origin: Origin { x: 0, y: 0 },
            order: Order::Above(UNIT),
        }
    }
}

} // verus!
