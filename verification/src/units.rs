//! The lengths that a node is declared with, and what they resolve to.
//!
//! A [`Length`] is what an author writes. During measurement it becomes a
//! [`SmallestLength`], which is either a known fraction of the screen or still
//! waits for the parent's size or for the node's own content. Arrangement
//! turns everything into [`RealSize`], [`RealPosition`] and [`RealLocation`]:
//! fractions of the screen and nothing else.

use vstd::prelude::*;
use crate::number::{Percentage, UNIT, plus, minus, gap, times};
use crate::number::{plus_spec, minus_spec, gap_spec, times_spec};
use crate::error::LayoutError;

verus! {

/// x / y in screen space, as fractions of the screen size.
#[derive(Clone, Copy, Debug, PartialEq, Eq, Structural)]
pub struct RealPosition {
    pub x: Percentage,
    pub y: Percentage,
}

impl RealPosition {
    /// The upper-left corner of the screen.
    pub fn zero() -> (r: Self)
        ensures
            r == (RealPosition { x: 0, y: 0 }),
    {
        RealPosition { x: 0, y: 0 }
    }

    /// The position moved by `rhs`.
    pub open spec fn plus_spec(self, rhs: Self) -> Self {
        RealPosition {
            x: plus_spec(self.x as int, rhs.x as int) as i64,
            y: plus_spec(self.y as int, rhs.y as int) as i64,
        }
    }

    /// Moves the position by `rhs`.
    pub fn plus(self, rhs: Self) -> (r: Self)
        ensures
            r == self.plus_spec(rhs),
    {
        RealPosition { x: plus(self.x, rhs.x), y: plus(self.y, rhs.y) }
    }
}

/// width / height in screen space, as fractions of the screen size.
#[derive(Clone, Copy, Debug, PartialEq, Eq, Structural)]
pub struct RealSize {
    pub width: Percentage,
    pub height: Percentage,
}

impl RealSize {
    /// The empty size.
    pub fn zero() -> (r: Self)
        ensures
            r == (RealSize { width: 0, height: 0 }),
    {
        RealSize { width: 0, height: 0 }
    }

    /// The size as a measured size that is fully known.
    pub open spec fn smallest_size_spec(self) -> SmallestSize {
        SmallestSize {
            width: SmallestLength::Screen(self.width),
            height: SmallestLength::Screen(self.height),
        }
    }

    /// The size as a measured size that is fully known.
    pub fn smallest_size(&self) -> (r: SmallestSize)
        ensures
            r == self.smallest_size_spec(),
    {
        SmallestSize {
            width: SmallestLength::Screen(self.width),
            height: SmallestLength::Screen(self.height),
        }
    }

    /// Both sizes added, axis by axis.
    pub open spec fn plus_spec(self, rhs: Self) -> Self {
        RealSize {
            width: plus_spec(self.width as int, rhs.width as int) as i64,
            height: plus_spec(self.height as int, rhs.height as int) as i64,
        }
    }

    /// Adds two sizes, axis by axis.
    pub fn plus(self, rhs: Self) -> (r: Self)
        ensures
            r == self.plus_spec(rhs),
    {
        RealSize { width: plus(self.width, rhs.width), height: plus(self.height, rhs.height) }
    }

    /// `rhs` taken away axis by axis, each axis stopping at zero.
    pub open spec fn minus_spec(self, rhs: Self) -> Self {
        RealSize {
            width: gap_spec(self.width as int, rhs.width as int) as i64,
            height: gap_spec(self.height as int, rhs.height as int) as i64,
        }
    }

    /// Takes `rhs` away axis by axis; an axis never goes below zero.
    pub fn minus(self, rhs: Self) -> (r: Self)
        ensures
            r == self.minus_spec(rhs),
            r.width >= 0,
            r.height >= 0,
    {
        RealSize { width: gap(self.width, rhs.width), height: gap(self.height, rhs.height) }
    }
}

/// Padding in screen space, as fractions of the screen size.
#[derive(Clone, Copy, Debug, PartialEq, Eq, Structural)]
pub struct RealPadding {
    pub up: Percentage,
    pub down: Percentage,
    pub left: Percentage,
    pub right: Percentage,
}

/// The x / y / width / height / order of a node in screen space.
#[derive(Clone, Copy, Debug, PartialEq, Eq, Structural)]
pub struct RealLocation {
    pub position: RealPosition,
    pub size: RealSize,
    pub order: Percentage,
}

impl RealLocation {
    /// The location that covers the entire screen, with the lowest order.
    pub open spec fn full_spec() -> Self {
        RealLocation {
            position: RealPosition { x: 0, y: 0 },
            size: RealSize { width: UNIT, height: UNIT },
            order: UNIT,
        }
    }

    /// Returns the location that covers the entire screen.
    pub fn full() -> (r: Self)
        ensures
            r == Self::full_spec(),
    {
        RealLocation {
            position: RealPosition { x: 0, y: 0 },
            size: RealSize { width: UNIT, height: UNIT },
            order: UNIT,
        }
    }

    /// Shifts the position to the right.
    pub fn move_right(&mut self, amount: Percentage)
        ensures
            final(self).position.x == plus_spec(old(self).position.x as int, amount as int),
            final(self).position.y == old(self).position.y,
            final(self).size == old(self).size,
            final(self).order == old(self).order,
    {
        self.position.x = plus(self.position.x, amount);
    }

    /// Shifts the position down.
    pub fn move_down(&mut self, amount: Percentage)
        ensures
            final(self).position.y == plus_spec(old(self).position.y as int, amount as int),
            final(self).position.x == old(self).position.x,
            final(self).size == old(self).size,
            final(self).order == old(self).order,
    {
        self.position.y = plus(self.position.y, amount);
    }

    /// The location in clip space: x from -1 (left) to 1 (right), y from 1
    /// (top) to -1 (bottom), and sizes doubled.
    pub open spec fn clip_space_spec(self) -> Self {
        RealLocation {
            position: RealPosition {
                x: minus_spec(times_spec(self.position.x as int, 2 * UNIT), UNIT as int) as i64,
                y: plus_spec(times_spec(self.position.y as int, -2 * UNIT), UNIT as int) as i64,
            },
            size: RealSize {
                width: times_spec(self.size.width as int, 2 * UNIT) as i64,
                height: times_spec(self.size.height as int, 2 * UNIT) as i64,
            },
            order: self.order,
        }
    }

    /// Converts from screen fractions, whose origin is the upper-left corner,
    /// into clip space, whose origin is the centre and whose y axis points up.
    pub fn convert_to_wgpu_coordinates(&self) -> (r: Self)
        ensures
            r == self.clip_space_spec(),
    {
        let width = times(self.size.width, 2 * UNIT);
        let height = times(self.size.height, 2 * UNIT);
        let x = minus(times(self.position.x, 2 * UNIT), UNIT);
        let y = plus(times(self.position.y, -2 * UNIT), UNIT);
        RealLocation {
            position: RealPosition { x, y },
            size: RealSize { width, height },
            order: self.order,
        }
    }
}

/// A length during measurement: known, or waiting for the parent or for the
/// node's own content.
#[derive(Clone, Copy, Debug, PartialEq, Eq, Structural)]
pub enum SmallestLength {
    /// Fixed length in screen space.
    Screen(Percentage),
    /// Stretches to fill up the parent's width.
    ParentWidth(Percentage),
    /// Stretches to fill up the parent's height.
    ParentHeight(Percentage),
    /// Waits for the smallest width of the content.
    SmallestWidth(Percentage),
    /// Waits for the smallest height of the content.
    SmallestHeight(Percentage),
}

/// A size during measurement.
#[derive(Clone, Copy, Debug, PartialEq, Eq, Structural)]
pub struct SmallestSize {
    pub width: SmallestLength,
    pub height: SmallestLength,
}

impl SmallestLength {
    /// Whether the length waits for the node's own content.
    pub open spec fn is_smallest_spec(self) -> bool {
        self is SmallestWidth || self is SmallestHeight
    }

    /// Whether the length waits for the node's own content.
    pub fn is_smallest(&self) -> (r: bool)
        ensures
            r == self.is_smallest_spec(),
    {
        match self {
            SmallestLength::SmallestWidth(_) | SmallestLength::SmallestHeight(_) => true,
            _ => false,
        }
    }

    /// The error that names what a length still waits for.
    pub open spec fn pending_spec(self) -> LayoutError {
        match self {
            SmallestLength::Screen(_) => LayoutError::Unresolved,
            SmallestLength::ParentWidth(_) => LayoutError::ParentWidthUnknown,
            SmallestLength::ParentHeight(_) => LayoutError::ParentHeightUnknown,
            SmallestLength::SmallestWidth(_) => LayoutError::SmallestWidthUnknown,
            SmallestLength::SmallestHeight(_) => LayoutError::SmallestHeightUnknown,
        }
    }

    /// The length resolved against the parent and the content, as far as each
    /// of them is known. A length relative to content that itself only depends
    /// on a parent counts as zero.
    pub open spec fn to_screen_spec(self, parent: SmallestSize, smallest: SmallestSize) -> Self {
        match self {
            SmallestLength::ParentWidth(x) => match parent.width {
                SmallestLength::Screen(w) => SmallestLength::Screen(times_spec(x as int, w as int) as i64),
                _ => self,
            },
            SmallestLength::ParentHeight(x) => match parent.height {
                SmallestLength::Screen(h) => SmallestLength::Screen(times_spec(x as int, h as int) as i64),
                _ => self,
            },
            SmallestLength::SmallestWidth(x) => match smallest.width {
                SmallestLength::Screen(w) => SmallestLength::Screen(times_spec(x as int, w as int) as i64),
                SmallestLength::ParentWidth(_) | SmallestLength::ParentHeight(_) => SmallestLength::Screen(0),
                _ => self,
            },
            SmallestLength::SmallestHeight(x) => match smallest.height {
                SmallestLength::Screen(h) => SmallestLength::Screen(times_spec(x as int, h as int) as i64),
                SmallestLength::ParentWidth(_) | SmallestLength::ParentHeight(_) => SmallestLength::Screen(0),
                _ => self,
            },
            SmallestLength::Screen(_) => self,
        }
    }

    /// Converts ParentWidth / ParentHeight / SmallestWidth / SmallestHeight
    /// into Screen, if possible.
    pub fn to_screen(&self, parent: &SmallestSize, smallest: &SmallestSize) -> (r: Self)
        ensures
            r == self.to_screen_spec(*parent, *smallest),
    {
        match *self {
            SmallestLength::ParentWidth(x) => match parent.width {
                SmallestLength::Screen(w) => SmallestLength::Screen(times(x, w)),
                _ => SmallestLength::ParentWidth(x),
            },
            SmallestLength::ParentHeight(x) => match parent.height {
                SmallestLength::Screen(h) => SmallestLength::Screen(times(x, h)),
                _ => SmallestLength::ParentHeight(x),
            },
            SmallestLength::SmallestWidth(x) => match smallest.width {
                SmallestLength::Screen(w) => SmallestLength::Screen(times(x, w)),
                SmallestLength::ParentWidth(_) | SmallestLength::ParentHeight(_) => SmallestLength::Screen(0),
                _ => SmallestLength::SmallestWidth(x),
            },
            SmallestLength::SmallestHeight(x) => match smallest.height {
                SmallestLength::Screen(h) => SmallestLength::Screen(times(x, h)),
                SmallestLength::ParentWidth(_) | SmallestLength::ParentHeight(_) => SmallestLength::Screen(0),
                _ => SmallestLength::SmallestHeight(x),
            },
            SmallestLength::Screen(x) => SmallestLength::Screen(x),
        }
    }

    /// The length with ParentWidth / ParentHeight resolved, where the parent's
    /// axis is known.
    pub open spec fn parent_to_screen_spec(self, parent: SmallestSize) -> Self {
        match self {
            SmallestLength::ParentWidth(x) => match parent.width {
                SmallestLength::Screen(w) => SmallestLength::Screen(times_spec(x as int, w as int) as i64),
                _ => self,
            },
            SmallestLength::ParentHeight(x) => match parent.height {
                SmallestLength::Screen(h) => SmallestLength::Screen(times_spec(x as int, h as int) as i64),
                _ => self,
            },
            _ => self,
        }
    }

    /// Converts ParentWidth / ParentHeight into Screen, if possible.
    pub fn parent_to_screen(&self, parent: &SmallestSize) -> (r: Self)
        ensures
            r == self.parent_to_screen_spec(*parent),
    {
        match *self {
            SmallestLength::ParentWidth(x) => match parent.width {
                SmallestLength::Screen(w) => SmallestLength::Screen(times(x, w)),
                _ => SmallestLength::ParentWidth(x),
            },
            SmallestLength::ParentHeight(x) => match parent.height {
                SmallestLength::Screen(h) => SmallestLength::Screen(times(x, h)),
                _ => SmallestLength::ParentHeight(x),
            },
            other => other,
        }
    }

    /// The length with ParentWidth / ParentHeight turned into a share of the
    /// content, where the parent itself shrinks to its content.
    pub open spec fn parent_to_smallest_spec(self, parent: SmallestSize) -> Self {
        match self {
            SmallestLength::ParentWidth(x) => match parent.width {
                SmallestLength::SmallestWidth(y) => SmallestLength::SmallestWidth(times_spec(x as int, y as int) as i64),
                SmallestLength::SmallestHeight(y) => SmallestLength::SmallestHeight(times_spec(x as int, y as int) as i64),
                _ => self,
            },
            SmallestLength::ParentHeight(x) => match parent.height {
                SmallestLength::SmallestWidth(y) => SmallestLength::SmallestWidth(times_spec(x as int, y as int) as i64),
                SmallestLength::SmallestHeight(y) => SmallestLength::SmallestHeight(times_spec(x as int, y as int) as i64),
                _ => self,
            },
            _ => self,
        }
    }

    /// Potentially converts ParentWidth / ParentHeight into SmallestWidth /
    /// SmallestHeight.
    pub fn parent_to_smallest(&self, parent: &SmallestSize) -> (r: Self)
        ensures
            r == self.parent_to_smallest_spec(*parent),
    {
        match *self {
            SmallestLength::ParentWidth(x) => match parent.width {
                SmallestLength::SmallestWidth(y) => SmallestLength::SmallestWidth(times(x, y)),
                SmallestLength::SmallestHeight(y) => SmallestLength::SmallestHeight(times(x, y)),
                _ => SmallestLength::ParentWidth(x),
            },
            SmallestLength::ParentHeight(x) => match parent.height {
                SmallestLength::SmallestWidth(y) => SmallestLength::SmallestWidth(times(x, y)),
                SmallestLength::SmallestHeight(y) => SmallestLength::SmallestHeight(times(x, y)),
                _ => SmallestLength::ParentHeight(x),
            },
            other => other,
        }
    }

    /// The length with SmallestWidth / SmallestHeight resolved against the
    /// measured content.
    pub open spec fn set_smallest_spec(self, smallest: RealSize) -> Self {
        match self {
            SmallestLength::SmallestWidth(x) => SmallestLength::Screen(times_spec(x as int, smallest.width as int) as i64),
            SmallestLength::SmallestHeight(x) => SmallestLength::Screen(times_spec(x as int, smallest.height as int) as i64),
            _ => self,
        }
    }

    /// Converts the SmallestWidth / SmallestHeight into Screen.
    pub fn set_smallest(&self, smallest: &RealSize) -> (r: Self)
        ensures
            r == self.set_smallest_spec(*smallest),
            !r.is_smallest_spec(),
    {
        match *self {
            SmallestLength::SmallestWidth(x) => SmallestLength::Screen(times(x, smallest.width)),
            SmallestLength::SmallestHeight(x) => SmallestLength::Screen(times(x, smallest.height)),
            other => other,
        }
    }

    /// The fraction of the screen that the length stands for, where a length
    /// that waits for the parent counts as zero.
    pub open spec fn real_length_spec(self) -> Result<Percentage, LayoutError> {
        match self {
            SmallestLength::Screen(x) => Ok(x),
            SmallestLength::ParentWidth(_) | SmallestLength::ParentHeight(_) => Ok(0i64),
            _ => Err(LayoutError::Unresolved),
        }
    }

    /// ParentWidth / ParentHeight are converted to zero. A length that still
    /// waits for its content is an error.
    pub fn real_length(&self) -> (r: Result<Percentage, LayoutError>)
        ensures
            r == self.real_length_spec(),
    {
        match *self {
            SmallestLength::Screen(x) => Ok(x),
            SmallestLength::ParentWidth(_) | SmallestLength::ParentHeight(_) => Ok(0),
            _ => Err(LayoutError::Unresolved),
        }
    }

    /// The fraction of the screen, where the length is known; else the error
    /// that names what it waits for.
    pub open spec fn screen_spec(self) -> Result<Percentage, LayoutError> {
        match self {
            SmallestLength::Screen(x) => Ok(x),
            _ => Err(self.pending_spec()),
        }
    }

    /// The fraction of the screen of a length that must be known by now.
    pub fn screen(&self) -> (r: Result<Percentage, LayoutError>)
        ensures
            r == self.screen_spec(),
    {
        match *self {
            SmallestLength::Screen(x) => Ok(x),
            SmallestLength::ParentWidth(_) => Err(LayoutError::ParentWidthUnknown),
            SmallestLength::ParentHeight(_) => Err(LayoutError::ParentHeightUnknown),
            SmallestLength::SmallestWidth(_) => Err(LayoutError::SmallestWidthUnknown),
            SmallestLength::SmallestHeight(_) => Err(LayoutError::SmallestHeightUnknown),
        }
    }

    /// The fraction of the screen of a length that is known.
    pub fn unwrap(&self) -> (r: Percentage)
        requires
            self is Screen,
        ensures
            r == self->Screen_0,
    {
        match *self {
            SmallestLength::Screen(x) => x,
            _ => 0,
        }
    }
}

impl SmallestSize {
    /// The empty size, fully known.
    pub fn zero() -> (r: Self)
        ensures
            r == (SmallestSize { width: SmallestLength::Screen(0), height: SmallestLength::Screen(0) }),
    {
        SmallestSize { width: SmallestLength::Screen(0), height: SmallestLength::Screen(0) }
    }

    /// Whether either axis waits for the node's own content.
    pub open spec fn is_smallest_spec(self) -> bool {
        self.width.is_smallest_spec() || self.height.is_smallest_spec()
    }

    /// Whether either axis waits for the node's own content.
    pub fn is_smallest(&self) -> (r: bool)
        ensures
            r == self.is_smallest_spec(),
    {
        self.width.is_smallest() || self.height.is_smallest()
    }

    /// The size in screen space, where an axis that waits for the parent
    /// counts as zero; the width is looked at first.
    pub open spec fn real_size_spec(self) -> Result<RealSize, LayoutError> {
        match self.width.real_length_spec() {
            Err(e) => Err(e),
            Ok(width) => match self.height.real_length_spec() {
                Err(e) => Err(e),
                Ok(height) => Ok(RealSize { width, height }),
            },
        }
    }

    /// Returns zero for ParentWidth / ParentHeight. An axis that still waits
    /// for its content is an error.
    pub fn real_size(&self) -> (r: Result<RealSize, LayoutError>)
        ensures
            r == self.real_size_spec(),
    {
        match self.width.real_length() {
            Err(e) => Err(e),
            Ok(width) => match self.height.real_length() {
                Err(e) => Err(e),
                Ok(height) => Ok(RealSize { width, height }),
            },
        }
    }

    /// Both axes with ParentWidth / ParentHeight resolved where possible.
    pub open spec fn parent_to_screen_spec(self, parent: SmallestSize) -> Self {
        SmallestSize {
            width: self.width.parent_to_screen_spec(parent),
            height: self.height.parent_to_screen_spec(parent),
        }
    }

    /// Converts ParentWidth / ParentHeight into Screen, if possible.
    pub fn parent_to_screen(&self, parent: &SmallestSize) -> (r: Self)
        ensures
            r == self.parent_to_screen_spec(*parent),
    {
        let width = self.width.parent_to_screen(parent);
        let height = self.height.parent_to_screen(parent);
        SmallestSize { width, height }
    }

    /// Both axes with ParentWidth / ParentHeight turned into a share of the
    /// content where the parent shrinks to its content.
    pub open spec fn parent_to_smallest_spec(self, parent: SmallestSize) -> Self {
        SmallestSize {
            width: self.width.parent_to_smallest_spec(parent),
            height: self.height.parent_to_smallest_spec(parent),
        }
    }

    /// Potentially converts ParentWidth / ParentHeight into SmallestWidth /
    /// SmallestHeight.
    pub fn parent_to_smallest(&self, parent: &SmallestSize) -> (r: Self)
        ensures
            r == self.parent_to_smallest_spec(*parent),
    {
        let width = self.width.parent_to_smallest(parent);
        let height = self.height.parent_to_smallest(parent);
        SmallestSize { width, height }
    }

    /// Both axes with SmallestWidth / SmallestHeight resolved against the
    /// measured content.
    pub open spec fn set_smallest_spec(self, smallest: RealSize) -> Self {
        SmallestSize {
            width: self.width.set_smallest_spec(smallest),
            height: self.height.set_smallest_spec(smallest),
        }
    }

    /// Sets the SmallestWidth / SmallestHeight from the measured content.
    pub fn set_smallest(&self, smallest: &RealSize) -> (r: Self)
        ensures
            r == self.set_smallest_spec(*smallest),
            !r.is_smallest_spec(),
    {
        let width = self.width.set_smallest(smallest);
        let height = self.height.set_smallest(smallest);
        SmallestSize { width, height }
    }

    /// The size with `rhs` taken away from each axis that is known; a known
    /// axis never goes below zero.
    pub open spec fn shrink_spec(self, rhs: RealSize) -> Self {
        SmallestSize {
            width: match self.width {
                SmallestLength::Screen(x) => SmallestLength::Screen(gap_spec(x as int, rhs.width as int) as i64),
                other => other,
            },
            height: match self.height {
                SmallestLength::Screen(x) => SmallestLength::Screen(gap_spec(x as int, rhs.height as int) as i64),
                other => other,
            },
        }
    }

    /// Takes `rhs` away from each axis that is known.
    pub fn shrink(self, rhs: RealSize) -> (r: Self)
        ensures
            r == self.shrink_spec(rhs),
    {
        SmallestSize {
            width: match self.width {
                SmallestLength::Screen(x) => SmallestLength::Screen(gap(x, rhs.width)),
                other => other,
            },
            height: match self.height {
                SmallestLength::Screen(x) => SmallestLength::Screen(gap(x, rhs.height)),
                other => other,
            },
        }
    }

    /// The space that a node with this declared size, inside `old_parent`,
    /// offers to its children: its own size as far as known, less the padding.
    pub open spec fn inner_parent_spec(self, old_parent: SmallestSize, padding: RealSize) -> Self {
        self.parent_to_screen_spec(old_parent).shrink_spec(padding)
    }

    /// Converts from this node's space into the space of its children, by
    /// subtracting the padding.
    pub fn inner_parent(&self, old_parent: &SmallestSize, padding: RealSize) -> (r: Self)
        ensures
            r == self.inner_parent_spec(*old_parent, padding),
    {
        self.parent_to_screen(old_parent).shrink(padding)
    }

    /// The measured size of a node whose children need `children`: the
    /// padding is added back and the axes that waited for content are set.
    pub open spec fn with_padding_spec(self, padding: RealSize, children: RealSize) -> Self {
        self.set_smallest_spec(children.plus_spec(padding))
    }

    /// Converts the size that the children need back into this node's space,
    /// by adding the padding, and sets the axes that waited for it.
    pub fn with_padding(&self, padding: RealSize, children: RealSize) -> (r: Self)
        ensures
            r == self.with_padding_spec(padding, children),
            !r.is_smallest_spec(),
    {
        let children_size = children.plus(padding);
        self.set_smallest(&children_size)
    }
}

} // verus!
