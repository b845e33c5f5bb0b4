//! Rows and columns: children placed one after another along a main axis,
//! sharing what space is left over by their ratios.

use vstd::prelude::*;
use crate::number::{Percentage, plus, gap, scale, larger};
use crate::number::{plus_spec, gap_spec, scale_spec, larger_spec, quotient};
use crate::error::LayoutError;
use crate::units::{RealPosition, RealSize, RealLocation, SmallestLength, SmallestSize};
use crate::measured::{Measured, sizes};

verus! {

/// The axis along which a row or a column places its children.
#[derive(Clone, Copy, Debug, PartialEq, Eq, Structural)]
pub enum Axis {
    /// Left to right: a row.
    Horizontal,
    /// Top to bottom: a column.
    Vertical,
}

/// What one child adds to the measurement of its row or column.
#[derive(Clone, Copy, Debug, PartialEq, Eq, Structural)]
pub struct Share {
    /// The child's length along the main axis, where it is fixed.
    pub fixed: Percentage,
    /// The child's stretch ratio, where it stretches along the main axis.
    pub ratio: Percentage,
    /// The child's length across the main axis, where it is fixed.
    pub cross: Percentage,
}

/// The measurement of a row or column, summed over its visible children.
#[derive(Clone, Copy, Debug, PartialEq, Eq, Structural)]
pub struct Totals {
    /// The sum of the fixed lengths along the main axis.
    pub min_main: Percentage,
    /// The sum of the stretch ratios.
    pub ratio_sum: Percentage,
    /// The largest fixed length across the main axis.
    pub cross: Percentage,
}

impl Axis {
    /// The length of `size` along the axis.
    pub open spec fn main_spec(self, size: SmallestSize) -> SmallestLength {
        match self {
            Axis::Horizontal => size.width,
            Axis::Vertical => size.height,
        }
    }

    /// The length of `size` across the axis.
    pub open spec fn cross_spec(self, size: SmallestSize) -> SmallestLength {
        match self {
            Axis::Horizontal => size.height,
            Axis::Vertical => size.width,
        }
    }

    /// Whether `length` is a share of the parent along the axis.
    pub open spec fn is_parent_main_spec(self, length: SmallestLength) -> bool {
        match self {
            Axis::Horizontal => length is ParentWidth,
            Axis::Vertical => length is ParentHeight,
        }
    }

    /// The space that a row or column offers to its children: its own inner
    /// space, but along the main axis each child shrinks to its content.
    pub open spec fn child_parent_spec(self, inner: SmallestSize) -> SmallestSize {
        match self {
            Axis::Horizontal => SmallestSize { width: SmallestLength::SmallestWidth(crate::number::UNIT), height: inner.height },
            Axis::Vertical => SmallestSize { width: inner.width, height: SmallestLength::SmallestHeight(crate::number::UNIT) },
        }
    }

    /// Shrinks the children along the main axis as much as possible.
    pub fn child_parent(self, inner: &SmallestSize) -> (r: SmallestSize)
        ensures
            r == self.child_parent_spec(*inner),
    {
        match self {
            Axis::Horizontal => SmallestSize { width: SmallestLength::SmallestWidth(crate::number::UNIT), height: inner.height },
            Axis::Vertical => SmallestSize { width: inner.width, height: SmallestLength::SmallestHeight(crate::number::UNIT) },
        }
    }

    /// What a child of measured size `child` adds to its row or column. Along
    /// the main axis a child is fixed or stretches; across it a child is
    /// fixed or fills the parent. The main axis is looked at first.
    pub open spec fn share_spec(self, child: SmallestSize) -> Result<Share, LayoutError> {
        let main = self.main_spec(child);
        let cross = self.cross_spec(child);
        if main.is_smallest_spec() {
            Err(LayoutError::Unresolved)
        } else if !(main is Screen) && !self.is_parent_main_spec(main) {
            Err(LayoutError::UnsupportedAxis)
        } else if cross.is_smallest_spec() {
            Err(LayoutError::Unresolved)
        } else if self.is_parent_main_spec(cross) {
            Err(LayoutError::UnsupportedAxis)
        } else {
            Ok(Share {
                fixed: match main {
                    SmallestLength::Screen(x) => x,
                    _ => 0i64,
                },
                ratio: match main {
                    SmallestLength::Screen(_) => 0i64,
                    SmallestLength::ParentWidth(x) => x,
                    SmallestLength::ParentHeight(x) => x,
                    _ => 0i64,
                },
                cross: match cross {
                    SmallestLength::Screen(x) => x,
                    _ => 0i64,
                },
            })
        }
    }

    /// Classifies a measured child of a row or column.
    pub fn share(self, child: &SmallestSize) -> (r: Result<Share, LayoutError>)
        ensures
            r == self.share_spec(*child),
    {
        let (main, cross) = match self {
            Axis::Horizontal => (child.width, child.height),
            Axis::Vertical => (child.height, child.width),
        };
        let mut fixed: Percentage = 0;
        let mut ratio: Percentage = 0;
        match main {
            SmallestLength::Screen(x) => { fixed = x; },
            SmallestLength::ParentWidth(x) => match self {
                Axis::Horizontal => { ratio = x; },
                Axis::Vertical => { return Err(LayoutError::UnsupportedAxis); },
            },
            SmallestLength::ParentHeight(x) => match self {
                Axis::Horizontal => { return Err(LayoutError::UnsupportedAxis); },
                Axis::Vertical => { ratio = x; },
            },
            _ => { return Err(LayoutError::Unresolved); },
        }
        let across: Percentage = match cross {
            SmallestLength::Screen(x) => x,
            SmallestLength::ParentWidth(_) => match self {
                Axis::Horizontal => { return Err(LayoutError::UnsupportedAxis); },
                Axis::Vertical => 0,
            },
            SmallestLength::ParentHeight(_) => match self {
                Axis::Horizontal => 0,
                Axis::Vertical => { return Err(LayoutError::UnsupportedAxis); },
            },
            _ => { return Err(LayoutError::Unresolved); },
        };
        Ok(Share { fixed, ratio, cross: across })
    }

    /// The totals of the first `n` children: the fixed lengths and the ratios
    /// are summed, the cross lengths give their maximum (not below zero), and
    /// children that are not there (`None`) add nothing. The first child that
    /// cannot be classified decides the error.
    pub open spec fn totals_spec(self, children: Seq<Option<SmallestSize>>, n: int) -> Result<Totals, LayoutError>
        decreases n,
    {
        if n <= 0 || n > children.len() {
            Ok(Totals { min_main: 0, ratio_sum: 0, cross: 0 })
        } else {
            match self.totals_spec(children, n - 1) {
                Err(e) => Err(e),
                Ok(before) => match children[n - 1] {
                    None => Ok(before),
                    Some(child) => match self.share_spec(child) {
                        Err(e) => Err(e),
                        Ok(share) => Ok(Totals {
                            min_main: plus_spec(before.min_main as int, share.fixed as int) as i64,
                            ratio_sum: plus_spec(before.ratio_sum as int, share.ratio as int) as i64,
                            cross: larger_spec(before.cross as int, share.cross as int) as i64,
                        }),
                    },
                },
            }
        }
    }

    /// Whether a row or column can hold the children: each child that is
    /// there is fixed or stretches along the main axis, and is fixed or fills
    /// the parent across it.
    pub open spec fn supported(self, children: Seq<Option<SmallestSize>>) -> bool {
        forall|i: int| 0 <= i < children.len() ==> match #[trigger] children[i] {
            Some(child) => self.share_spec(child) is Ok,
            None => true,
        }
    }

    /// Tests whether a row or column can hold the children, and says of the
    /// first that it cannot hold what is wrong with it.
    pub fn check(self, children: &Vec<Option<Measured>>) -> (r: Result<(), LayoutError>)
        ensures
            match r {
                Ok(()) => self.supported(sizes(children@)),
                Err(e) => {
                    &&& !self.supported(sizes(children@))
                    &&& self.totals_spec(sizes(children@), children@.len() as int) == Err::<Totals, LayoutError>(e)
                },
            },
    {
        let mut i: usize = 0;
        while i < children.len()
            invariant
                0 <= i <= children@.len(),
                self.totals_spec(sizes(children@), i as int) is Ok,
                forall|j: int| 0 <= j < i ==> match #[trigger] sizes(children@)[j] {
                    Some(child) => self.share_spec(child) is Ok,
                    None => true,
                },
            decreases children@.len() - i,
        {
            match &children[i] {
                None => {},
                Some(child) => match self.share(&child.size) {
                    Err(e) => {
                        proof {
                            assert(sizes(children@)[i as int] == Some(child.size));
                            self.lemma_totals_error(sizes(children@), i as int + 1, children@.len() as int);
                        }
                        return Err(e);
                    },
                    Ok(_) => {},
                },
            }
            i = i + 1;
        }
        Ok(())
    }

    /// Measures a row or column from the measurements of its children: the
    /// fixed lengths along the main axis added up, the ratios of the
    /// stretching children added up, and the largest fixed length across.
    ///
    /// A child that such a node cannot hold is a mistake of whoever built
    /// the scene: it must not come here. [`Axis::check`] tests for it.
    pub fn children_size(self, children: &Vec<Option<Measured>>) -> (r: Totals)
        requires
            self.supported(sizes(children@)),
        ensures
            self.totals_spec(sizes(children@), children@.len() as int) == Ok::<Totals, LayoutError>(r),
    {
        let mut totals = Totals { min_main: 0, ratio_sum: 0, cross: 0 };
        let mut i: usize = 0;
        while i < children.len()
            invariant
                0 <= i <= children@.len(),
                self.supported(sizes(children@)),
                self.totals_spec(sizes(children@), i as int) == Ok::<Totals, LayoutError>(totals),
            decreases children@.len() - i,
        {
            match &children[i] {
                None => {},
                Some(child) => {
                    proof {
                        assert(sizes(children@)[i as int] == Some(child.size));
                    }
                    match self.share(&child.size) {
                        Ok(share) => {
                            totals = Totals {
                                min_main: plus(totals.min_main, share.fixed),
                                ratio_sum: plus(totals.ratio_sum, share.ratio),
                                cross: larger(totals.cross, share.cross),
                            };
                        },
                        Err(_) => {},
                    }
                },
            }
            i = i + 1;
        }
        totals
    }

    /// Where the totals of some children can be taken, a row or column can
    /// hold each of them.
    pub proof fn lemma_supported(self, children: Seq<Option<SmallestSize>>, n: int)
        requires
            0 <= n <= children.len(),
            self.totals_spec(children, n) is Ok,
        ensures
            forall|i: int| 0 <= i < n ==> match #[trigger] children[i] {
                Some(child) => self.share_spec(child) is Ok,
                None => true,
            },
        decreases n,
    {
        if n > 0 {
            self.lemma_supported(children, n - 1);
        }
    }

    /// An error among the first `i` children is the error of every longer
    /// prefix.
    pub proof fn lemma_totals_error(self, children: Seq<Option<SmallestSize>>, i: int, n: int)
        requires
            0 <= i <= n <= children.len(),
            self.totals_spec(children, i) is Err,
        ensures
            self.totals_spec(children, n) == self.totals_spec(children, i),
        decreases n - i,
    {
        if i < n {
            self.lemma_totals_error(children, i, n - 1);
        }
    }

    /// The size that the totals stand for: the fixed lengths along the main
    /// axis, the largest length across it.
    pub open spec fn content_spec(self, totals: Totals) -> RealSize {
        match self {
            Axis::Horizontal => RealSize { width: totals.min_main, height: totals.cross },
            Axis::Vertical => RealSize { width: totals.cross, height: totals.min_main },
        }
    }

    /// The smallest size of the content of a row or column.
    pub fn content(self, totals: &Totals) -> (r: RealSize)
        ensures
            r == self.content_spec(*totals),
    {
        match self {
            Axis::Horizontal => RealSize { width: totals.min_main, height: totals.cross },
            Axis::Vertical => RealSize { width: totals.cross, height: totals.min_main },
        }
    }
}

impl Axis {
    /// The space that is left along the main axis once every fixed child has
    /// its length.
    pub open spec fn empty_spec(main_size: Percentage, totals: Totals) -> int {
        gap_spec(main_size as int, totals.min_main as int)
    }

    /// The length along the main axis that a child gets: its own fixed
    /// length, or its ratio's share of the empty space.
    pub open spec fn child_main_spec(self, child: SmallestSize, empty: Percentage, ratio_sum: Percentage) -> int {
        match self.main_spec(child) {
            SmallestLength::Screen(x) => x as int,
            SmallestLength::ParentWidth(x) => scale_spec(empty as int, x as int, ratio_sum as int),
            SmallestLength::ParentHeight(x) => scale_spec(empty as int, x as int, ratio_sum as int),
            _ => 0,
        }
    }

    /// How far along the main axis the first `n` children reach, starting
    /// from `start`.
    pub open spec fn cursor_spec(self, children: Seq<Option<SmallestSize>>, start: Percentage, empty: Percentage, ratio_sum: Percentage, n: int) -> int
        decreases n,
    {
        if n <= 0 || n > children.len() {
            start as int
        } else {
            let before = self.cursor_spec(children, start, empty, ratio_sum, n - 1);
            match children[n - 1] {
                None => before,
                Some(child) => plus_spec(before, self.child_main_spec(child, empty, ratio_sum)),
            }
        }
    }

    /// The place of child `i` inside a row or column whose content is at
    /// `this`: after the children before it, as long as its share along the
    /// main axis and as wide as the parent across it.
    pub open spec fn place_spec(self, this: RealLocation, children: Seq<Option<SmallestSize>>, totals: Totals, i: int) -> Option<RealLocation> {
        match children[i] {
            None => None,
            Some(child) => {
                let main_size = match self {
                    Axis::Horizontal => this.size.width,
                    Axis::Vertical => this.size.height,
                };
                let empty = Self::empty_spec(main_size, totals) as i64;
                let length = self.child_main_spec(child, empty, totals.ratio_sum) as i64;
                match self {
                    Axis::Horizontal => Some(RealLocation {
                        position: RealPosition {
                            x: self.cursor_spec(children, this.position.x, empty, totals.ratio_sum, i) as i64,
                            y: this.position.y,
                        },
                        size: RealSize { width: length, height: this.size.height },
                        order: this.order,
                    }),
                    Axis::Vertical => Some(RealLocation {
                        position: RealPosition {
                            x: this.position.x,
                            y: self.cursor_spec(children, this.position.y, empty, totals.ratio_sum, i) as i64,
                        },
                        size: RealSize { width: this.size.width, height: length },
                        order: this.order,
                    }),
                }
            },
        }
    }

    /// Places the children of a row or column one after another.
    ///
    /// As with [`Axis::children_size`], a child that such a node cannot hold
    /// must not come here.
    pub fn placements(self, this: &RealLocation, children: &Vec<Option<Measured>>, totals: &Totals) -> (r: Vec<Option<RealLocation>>)
        requires
            self.supported(sizes(children@)),
        ensures
            r@.len() == children@.len(),
            forall|i: int| 0 <= i < children@.len() ==> r@[i] == self.place_spec(*this, sizes(children@), *totals, i),
    {
        let main_size = match self {
            Axis::Horizontal => this.size.width,
            Axis::Vertical => this.size.height,
        };
        let start = match self {
            Axis::Horizontal => this.position.x,
            Axis::Vertical => this.position.y,
        };
        let empty = gap(main_size, totals.min_main);
        let mut cursor = start;
        let mut places: Vec<Option<RealLocation>> = Vec::new();
        let mut i: usize = 0;
        while i < children.len()
            invariant
                0 <= i <= children@.len(),
                places@.len() == i,
                main_size == match self {
                    Axis::Horizontal => this.size.width,
                    Axis::Vertical => this.size.height,
                },
                start == match self {
                    Axis::Horizontal => this.position.x,
                    Axis::Vertical => this.position.y,
                },
                empty == Self::empty_spec(main_size, *totals),
                cursor == self.cursor_spec(sizes(children@), start, empty, totals.ratio_sum, i as int),
                forall|j: int| 0 <= j < i ==> places@[j] == self.place_spec(*this, sizes(children@), *totals, j),
            decreases children@.len() - i,
        {
            match &children[i] {
                None => {
                    places.push(None);
                },
                Some(child) => {
                    let main = match self {
                        Axis::Horizontal => child.size.width,
                        Axis::Vertical => child.size.height,
                    };
                    let length: Percentage = match main {
                        SmallestLength::Screen(x) => x,
                        SmallestLength::ParentWidth(x) => scale(empty, x, totals.ratio_sum),
                        SmallestLength::ParentHeight(x) => scale(empty, x, totals.ratio_sum),
                        _ => 0,
                    };
                    let place = match self {
                        Axis::Horizontal => RealLocation {
                            position: RealPosition { x: cursor, y: this.position.y },
                            size: RealSize { width: length, height: this.size.height },
                            order: this.order,
                        },
                        Axis::Vertical => RealLocation {
                            position: RealPosition { x: this.position.x, y: cursor },
                            size: RealSize { width: this.size.width, height: length },
                            order: this.order,
                        },
                    };
                    places.push(Some(place));
                    cursor = plus(cursor, length);
                },
            }
            i = i + 1;
        }
        places
    }

    /// The exact sum of the fixed lengths of the first `n` children.
    pub open spec fn fixed_sum(self, children: Seq<Option<SmallestSize>>, n: int) -> int
        decreases n,
    {
        if n <= 0 || n > children.len() {
            0
        } else {
            self.fixed_sum(children, n - 1) + match children[n - 1] {
                Some(child) => match self.main_spec(child) {
                    SmallestLength::Screen(x) => x as int,
                    _ => 0,
                },
                None => 0,
            }
        }
    }

    /// The stretch ratio of child `i`, and zero for a child that does not
    /// stretch.
    pub open spec fn ratio_at(self, children: Seq<Option<SmallestSize>>, i: int) -> int {
        match children[i] {
            Some(child) => if self.is_parent_main_spec(self.main_spec(child)) {
                match self.main_spec(child) {
                    SmallestLength::ParentWidth(x) => x as int,
                    SmallestLength::ParentHeight(x) => x as int,
                    _ => 0,
                }
            } else {
                0
            },
            None => 0,
        }
    }

    /// The exact sum of the stretch ratios of the first `n` children.
    pub open spec fn ratio_total(self, children: Seq<Option<SmallestSize>>, n: int) -> int
        decreases n,
    {
        if n <= 0 || n > children.len() {
            0
        } else {
            self.ratio_total(children, n - 1) + self.ratio_at(children, n - 1)
        }
    }

    /// How many of the first `n` children stretch.
    pub open spec fn stretch_count(self, children: Seq<Option<SmallestSize>>, n: int) -> int
        decreases n,
    {
        if n <= 0 || n > children.len() {
            0
        } else {
            self.stretch_count(children, n - 1) + match children[n - 1] {
                Some(child) => if self.is_parent_main_spec(self.main_spec(child)) { 1int } else { 0int },
                None => 0,
            }
        }
    }

    /// The exact sum of the lengths that the first `n` children get along the
    /// main axis.
    pub open spec fn main_sum(self, children: Seq<Option<SmallestSize>>, empty: Percentage, ratio_sum: Percentage, n: int) -> int
        decreases n,
    {
        if n <= 0 || n > children.len() {
            0
        } else {
            self.main_sum(children, empty, ratio_sum, n - 1) + match children[n - 1] {
                Some(child) => self.child_main_spec(child, empty, ratio_sum),
                None => 0,
            }
        }
    }

    /// Whether no stretch ratio is negative.
    pub open spec fn nonnegative(self, children: Seq<Option<SmallestSize>>) -> bool {
        forall|i: int| 0 <= i < children.len() ==> #[trigger] self.ratio_at(children, i) >= 0
    }

    /// Whether every share of the empty space is within the limit of the
    /// numbers.
    pub open spec fn shares_fit(self, children: Seq<Option<SmallestSize>>, empty: Percentage, ratio_sum: Percentage) -> bool {
        forall|i: int| 0 <= i < children.len()
            ==> i64::MIN <= quotient(empty * #[trigger] self.ratio_at(children, i), ratio_sum as int) <= i64::MAX
    }

    /// Whether nothing that a row or column of length `main_size` adds up
    /// has run into the limit of the numbers: the totals are the exact sums,
    /// the empty space is the exact difference, and every share of it is
    /// exact.
    pub open spec fn unsaturated(self, children: Seq<Option<SmallestSize>>, totals: Totals, main_size: Percentage) -> bool {
        &&& totals.min_main == self.fixed_sum(children, children.len() as int)
        &&& totals.ratio_sum == self.ratio_total(children, children.len() as int)
        &&& main_size - totals.min_main <= i64::MAX
        &&& self.shares_fit(children, Self::empty_spec(main_size, totals) as i64, totals.ratio_sum)
    }

    /// The length along the main axis that a child was placed with, and
    /// nothing for a child that was not placed.
    pub open spec fn placed_main_spec(self, place: Option<RealLocation>) -> int {
        match place {
            None => 0,
            Some(location) => match self {
                Axis::Horizontal => location.size.width as int,
                Axis::Vertical => location.size.height as int,
            },
        }
    }

    /// The exact sum of the lengths along the main axis that the first `n`
    /// children are placed with.
    pub open spec fn placed_sum(self, this: RealLocation, children: Seq<Option<SmallestSize>>, totals: Totals, n: int) -> int
        decreases n,
    {
        if n <= 0 || n > children.len() {
            0
        } else {
            self.placed_sum(this, children, totals, n - 1) + self.placed_main_spec(self.place_spec(this, children, totals, n - 1))
        }
    }
}

/// A share of the empty space is the floor of the exact share.
pub proof fn lemma_share(empty: int, ratio: int, total: int)
    requires
        0 < total,
        i64::MIN <= quotient(empty * ratio, total) <= i64::MAX,
    ensures
        scale_spec(empty, ratio, total) == (empty * ratio) / total,
        total * scale_spec(empty, ratio, total) <= empty * ratio,
        empty * ratio < total * scale_spec(empty, ratio, total) + total,
{
    let p = empty * ratio;
    vstd::arithmetic::div_mod::lemma_fundamental_div_mod(p, total);
    vstd::arithmetic::div_mod::lemma_mod_bound(p, total);
}

/// A stretching child gets the floor of its exact share, which is never more
/// than the empty space.
pub proof fn lemma_stretch_share(empty: int, ratio: int, total: int)
    requires
        0 <= empty <= i64::MAX,
        0 <= ratio <= total,
        0 < total,
    ensures
        scale_spec(empty, ratio, total) == (empty * ratio) / total,
        0 <= scale_spec(empty, ratio, total) <= empty,
        total * scale_spec(empty, ratio, total) <= empty * ratio,
        empty * ratio < total * scale_spec(empty, ratio, total) + total,
{
    let p = empty * ratio;
    let q = p / total;
    assert(0 <= p) by (nonlinear_arith)
        requires
            0 <= empty,
            0 <= ratio,
            p == empty * ratio,
    ;
    vstd::arithmetic::div_mod::lemma_fundamental_div_mod(p, total);
    vstd::arithmetic::div_mod::lemma_mod_pos_bound(p, total);
    vstd::arithmetic::div_mod::lemma_div_pos_is_pos(p, total);
    assert(q <= empty) by (nonlinear_arith)
        requires
            p == total * q + p % total,
            0 <= p % total,
            p == empty * ratio,
            0 <= ratio <= total,
            0 <= empty,
            0 < total,
            0 <= q,
    ;
}

impl Axis {
    /// No ratio is larger than the sum of all of them, where none is
    /// negative.
    proof fn lemma_ratio_bounded(self, children: Seq<Option<SmallestSize>>, i: int, n: int)
        requires
            self.nonnegative(children),
            0 <= i < n <= children.len(),
        ensures
            0 <= self.ratio_at(children, i) <= self.ratio_total(children, n),
            0 <= self.ratio_total(children, i),
        decreases n,
    {
        self.lemma_ratio_total_positive(children, n - 1);
        if i < n - 1 {
            self.lemma_ratio_bounded(children, i, n - 1);
        } else {
            self.lemma_ratio_total_positive(children, i);
        }
    }

    /// Ratios of which none is negative do not add up to less than nothing.
    proof fn lemma_ratio_total_positive(self, children: Seq<Option<SmallestSize>>, n: int)
        requires
            self.nonnegative(children),
            0 <= n <= children.len(),
        ensures
            0 <= self.ratio_total(children, n),
        decreases n,
    {
        if n > 0 {
            self.lemma_ratio_total_positive(children, n - 1);
        }
    }

    /// Where no ratio is negative, every share of the empty space is within
    /// the limit of the numbers: none is more than the empty space.
    pub proof fn lemma_nonnegative_fit(self, children: Seq<Option<SmallestSize>>, empty: Percentage, ratio_sum: Percentage)
        requires
            self.nonnegative(children),
            0 <= empty,
            0 < ratio_sum,
            ratio_sum == self.ratio_total(children, children.len() as int),
        ensures
            self.shares_fit(children, empty, ratio_sum),
    {
        assert forall|i: int| 0 <= i < children.len() implies i64::MIN <= quotient(
            empty * #[trigger] self.ratio_at(children, i),
            ratio_sum as int,
        ) <= i64::MAX by {
            self.lemma_ratio_bounded(children, i, children.len() as int);
            lemma_stretch_share(empty as int, self.ratio_at(children, i), ratio_sum as int);
        }
    }

    /// What the first `n` children get beyond their fixed lengths, held
    /// between the exact share of their ratios and one less for each of them
    /// that stretches.
    proof fn lemma_stretch_sum(self, children: Seq<Option<SmallestSize>>, empty: Percentage, ratio_sum: Percentage, n: int)
        requires
            self.supported(children),
            self.shares_fit(children, empty, ratio_sum),
            0 <= n <= children.len(),
            0 < ratio_sum,
        ensures
            ({
                let stretched = self.main_sum(children, empty, ratio_sum, n) - self.fixed_sum(children, n);
                &&& ratio_sum * stretched <= empty * self.ratio_total(children, n)
                &&& empty * self.ratio_total(children, n) <= ratio_sum * stretched + ratio_sum * self.stretch_count(children, n)
            }),
        decreases n,
    {
        if n > 0 {
            self.lemma_stretch_sum(children, empty, ratio_sum, n - 1);
            let before = self.main_sum(children, empty, ratio_sum, n - 1) - self.fixed_sum(children, n - 1);
            let after = self.main_sum(children, empty, ratio_sum, n) - self.fixed_sum(children, n);
            let ratio = self.ratio_at(children, n - 1);
            let total_before = self.ratio_total(children, n - 1);
            let count_before = self.stretch_count(children, n - 1);
            let e = empty as int;
            let t = ratio_sum as int;
            match children[n - 1] {
                None => {
                    assert(after == before);
                    assert(self.ratio_total(children, n) == total_before);
                    assert(self.stretch_count(children, n) == count_before);
                },
                Some(child) => {
                    assert(self.share_spec(child) is Ok);
                    if self.is_parent_main_spec(self.main_spec(child)) {
                        lemma_share(e, ratio, t);
                        let q = scale_spec(e, ratio, t);
                        assert(self.child_main_spec(child, empty, ratio_sum) == q);
                        assert(after == before + q);
                        assert(t * after <= e * (total_before + ratio)
                            && e * (total_before + ratio) <= t * after + t * (count_before + 1)) by (nonlinear_arith)
                            requires
                                after == before + q,
                                t * before <= e * total_before,
                                e * total_before <= t * before + t * count_before,
                                t * q <= e * ratio,
                                e * ratio < t * q + t,
                        ;
                    } else {
                        assert(self.main_spec(child) is Screen);
                        assert(after == before);
                        assert(self.ratio_total(children, n) == total_before);
                        assert(self.stretch_count(children, n) == count_before);
                    }
                },
            }
        } else {
            let e = empty as int;
            let t = ratio_sum as int;
            assert(t * 0 == 0 && e * 0 == 0) by (nonlinear_arith);
        }
    }

    /// Conservation: in a row or column whose fixed children fit and which
    /// has something to stretch, the children's lengths along the main axis
    /// add up to the length of the row or column, short of it by less than
    /// one millionth for each child that stretches. This holds of whatever
    /// children a row or column can hold, as long as no number runs into its
    /// limit.
    pub proof fn lemma_conservation(self, children: Seq<Option<SmallestSize>>, totals: Totals, main_size: Percentage)
        requires
            self.supported(children),
            self.totals_spec(children, children.len() as int) == Ok::<Totals, LayoutError>(totals),
            self.unsaturated(children, totals, main_size),
            totals.ratio_sum > 0,
            totals.min_main <= main_size,
        ensures
            ({
                let empty = Self::empty_spec(main_size, totals) as i64;
                let sum = self.main_sum(children, empty, totals.ratio_sum, children.len() as int);
                main_size - self.stretch_count(children, children.len() as int) <= sum <= main_size
            }),
    {
        let n = children.len() as int;
        let empty = Self::empty_spec(main_size, totals) as i64;
        assert(empty == main_size - totals.min_main);
        self.lemma_stretch_sum(children, empty, totals.ratio_sum, n);
        let stretched = self.main_sum(children, empty, totals.ratio_sum, n) - self.fixed_sum(children, n);
        let e = empty as int;
        let t = totals.ratio_sum as int;
        let k = self.stretch_count(children, n);
        assert(stretched <= e && e - k <= stretched) by (nonlinear_arith)
            requires
                t * stretched <= e * t,
                e * t <= t * stretched + t * k,
                0 < t,
        ;
    }

    /// The lengths that the children are placed with are the lengths that
    /// they get.
    pub proof fn lemma_placed_sum(self, this: RealLocation, children: Seq<Option<SmallestSize>>, totals: Totals, n: int)
        requires
            0 <= n <= children.len(),
        ensures
            ({
                let main_size = match self {
                    Axis::Horizontal => this.size.width,
                    Axis::Vertical => this.size.height,
                };
                let empty = Self::empty_spec(main_size, totals) as i64;
                self.placed_sum(this, children, totals, n) == self.main_sum(children, empty, totals.ratio_sum, n)
            }),
        decreases n,
    {
        if n > 0 {
            self.lemma_placed_sum(this, children, totals, n - 1);
        }
    }

    /// Conservation, of the places that the children are given: where the
    /// fixed children of a row or column fit into its content at `this` and
    /// something stretches, the lengths that the children are placed with
    /// add up to the length of the content, short of it by less than one
    /// millionth for each child that stretches; and every child is as long
    /// across the axis as the content, and has its order.
    pub proof fn lemma_placements_conserve(self, this: RealLocation, children: Seq<Option<SmallestSize>>, totals: Totals)
        requires
            self.supported(children),
            self.totals_spec(children, children.len() as int) == Ok::<Totals, LayoutError>(totals),
            self.unsaturated(children, totals, match self {
                Axis::Horizontal => this.size.width,
                Axis::Vertical => this.size.height,
            }),
            totals.ratio_sum > 0,
            totals.min_main <= match self {
                Axis::Horizontal => this.size.width,
                Axis::Vertical => this.size.height,
            },
        ensures
            ({
                let main_size = match self {
                    Axis::Horizontal => this.size.width,
                    Axis::Vertical => this.size.height,
                };
                let sum = self.placed_sum(this, children, totals, children.len() as int);
                &&& main_size - self.stretch_count(children, children.len() as int) <= sum <= main_size
                &&& forall|i: int| 0 <= i < children.len() && children[i] is Some ==> {
                    let place = #[trigger] self.place_spec(this, children, totals, i);
                    &&& place is Some
                    &&& place->Some_0.order == this.order
                    &&& match self {
                        Axis::Horizontal => place->Some_0.size.height == this.size.height && place->Some_0.position.y == this.position.y,
                        Axis::Vertical => place->Some_0.size.width == this.size.width && place->Some_0.position.x == this.position.x,
                    }
                }
            }),
    {
        let main_size = match self {
            Axis::Horizontal => this.size.width,
            Axis::Vertical => this.size.height,
        };
        self.lemma_conservation(children, totals, main_size);
        self.lemma_placed_sum(this, children, totals, children.len() as int);
    }

    /// Each child begins where the children before it end: its place along
    /// the main axis is the beginning of the content and the lengths of the
    /// children before it, as long as no place runs into the limit of the
    /// numbers.
    pub proof fn lemma_placements_follow(self, this: RealLocation, children: Seq<Option<SmallestSize>>, totals: Totals, i: int)
        requires
            0 <= i < children.len(),
            children[i] is Some,
            forall|k: int| 0 <= k <= i ==> i64::MIN <= match self {
                Axis::Horizontal => this.position.x,
                Axis::Vertical => this.position.y,
            } + #[trigger] self.placed_sum(this, children, totals, k) <= i64::MAX,
        ensures
            ({
                let place = self.place_spec(this, children, totals, i)->Some_0;
                match self {
                    Axis::Horizontal => place.position.x == this.position.x + self.placed_sum(this, children, totals, i),
                    Axis::Vertical => place.position.y == this.position.y + self.placed_sum(this, children, totals, i),
                }
            }),
    {
        let main_size = match self {
            Axis::Horizontal => this.size.width,
            Axis::Vertical => this.size.height,
        };
        let start = match self {
            Axis::Horizontal => this.position.x,
            Axis::Vertical => this.position.y,
        };
        let empty = Self::empty_spec(main_size, totals) as i64;
        self.lemma_cursor(this, children, totals, start, empty, i);
    }

    proof fn lemma_cursor(self, this: RealLocation, children: Seq<Option<SmallestSize>>, totals: Totals, start: Percentage, empty: Percentage, n: int)
        requires
            0 <= n <= children.len(),
            empty == Self::empty_spec(
                match self {
                    Axis::Horizontal => this.size.width,
                    Axis::Vertical => this.size.height,
                },
                totals,
            ),
            forall|k: int| 0 <= k <= n ==> i64::MIN <= start + #[trigger] self.placed_sum(this, children, totals, k) <= i64::MAX,
        ensures
            self.cursor_spec(children, start, empty, totals.ratio_sum, n) == start + self.placed_sum(this, children, totals, n),
        decreases n,
    {
        if n > 0 {
            self.lemma_cursor(this, children, totals, start, empty, n - 1);
            assert(i64::MIN <= start + self.placed_sum(this, children, totals, n) <= i64::MAX);
            assert(i64::MIN <= start + self.placed_sum(this, children, totals, n - 1) <= i64::MAX);
        }
    }

    /// Where nothing stretches, every child keeps its fixed length: the
    /// lengths add up to the smallest length of the row or column.
    pub proof fn lemma_fixed_only(self, children: Seq<Option<SmallestSize>>, empty: Percentage, ratio_sum: Percentage, n: int)
        requires
            self.supported(children),
            0 <= n <= children.len(),
            self.stretch_count(children, n) == 0,
        ensures
            self.main_sum(children, empty, ratio_sum, n) == self.fixed_sum(children, n),
        decreases n,
    {
        if n > 0 {
            self.lemma_stretch_count_positive(children, n - 1);
            self.lemma_fixed_only(children, empty, ratio_sum, n - 1);
            match children[n - 1] {
                None => {},
                Some(child) => {
                    assert(self.share_spec(child) is Ok);
                },
            }
        }
    }

    /// Where no space is left over, a fixed child keeps its length and a
    /// stretching child gets none: the lengths add up to the fixed lengths.
    pub proof fn lemma_no_empty_space(self, children: Seq<Option<SmallestSize>>, ratio_sum: Percentage, n: int)
        requires
            self.supported(children),
            0 <= n <= children.len(),
        ensures
            self.main_sum(children, 0, ratio_sum, n) == self.fixed_sum(children, n),
            forall|i: int| 0 <= i < n && children[i] is Some ==> #[trigger] self.child_main_spec(children[i]->Some_0, 0, ratio_sum)
                == match self.main_spec(children[i]->Some_0) {
                    SmallestLength::Screen(x) => x as int,
                    _ => 0,
                },
        decreases n,
    {
        if n > 0 {
            self.lemma_no_empty_space(children, ratio_sum, n - 1);
            match children[n - 1] {
                None => {},
                Some(child) => {
                    assert(self.share_spec(child) is Ok);
                    assert(0 * self.ratio_at(children, n - 1) == 0) by (nonlinear_arith);
                    match self.main_spec(child) {
                        SmallestLength::ParentWidth(x) => {
                            assert(0 * x == 0) by (nonlinear_arith);
                        },
                        SmallestLength::ParentHeight(x) => {
                            assert(0 * x == 0) by (nonlinear_arith);
                        },
                        _ => {},
                    }
                },
            }
        }
    }

    /// Conservation in a row or column that is as long as its content: where
    /// the content at `this` is as long as the fixed children need, and their
    /// lengths were added up exactly, the lengths that the children are
    /// placed with add up to the length of the content. A fixed child is
    /// placed with its length, a stretching child with none.
    pub proof fn lemma_placements_fill(self, this: RealLocation, children: Seq<Option<SmallestSize>>, totals: Totals)
        requires
            self.supported(children),
            self.totals_spec(children, children.len() as int) == Ok::<Totals, LayoutError>(totals),
            totals.min_main == self.fixed_sum(children, children.len() as int),
            totals.min_main == match self {
                Axis::Horizontal => this.size.width,
                Axis::Vertical => this.size.height,
            },
        ensures
            self.placed_sum(this, children, totals, children.len() as int) == totals.min_main,
            forall|i: int| 0 <= i < children.len() && children[i] is Some ==> self.placed_main_spec(#[trigger] self.place_spec(this, children, totals, i))
                == match self.main_spec(children[i]->Some_0) {
                    SmallestLength::Screen(x) => x as int,
                    _ => 0,
                },
    {
        let n = children.len() as int;
        self.lemma_placed_sum(this, children, totals, n);
        self.lemma_no_empty_space(children, totals.ratio_sum, n);
        assert forall|i: int| 0 <= i < n && children[i] is Some implies self.placed_main_spec(#[trigger] self.place_spec(this, children, totals, i))
            == match self.main_spec(children[i]->Some_0) {
                SmallestLength::Screen(x) => x as int,
                _ => 0,
            } by {
            let length = self.child_main_spec(children[i]->Some_0, 0, totals.ratio_sum);
            assert(i64::MIN <= length <= i64::MAX);
        }
    }

    /// The number of children that stretch is not negative.
    proof fn lemma_stretch_count_positive(self, children: Seq<Option<SmallestSize>>, n: int)
        requires
            0 <= n <= children.len(),
        ensures
            0 <= self.stretch_count(children, n),
        decreases n,
    {
        if n > 0 {
            self.lemma_stretch_count_positive(children, n - 1);
        }
    }
}

/// The length that a child is placed with along the main axis is the
/// length that it gets, which the laws of this file speak of.
pub proof fn lemma_place_length(axis: Axis, this: RealLocation, children: Seq<Option<SmallestSize>>, totals: Totals, i: int)
    requires
        0 <= i < children.len(),
        children[i] is Some,
    ensures
        ({
            let main_size = match axis {
                Axis::Horizontal => this.size.width,
                Axis::Vertical => this.size.height,
            };
            let empty = Axis::empty_spec(main_size, totals) as i64;
            let place = axis.place_spec(this, children, totals, i);
            &&& place is Some
            &&& match axis {
                Axis::Horizontal => place->Some_0.size.width,
                Axis::Vertical => place->Some_0.size.height,
            } == axis.child_main_spec(children[i]->Some_0, empty, totals.ratio_sum)
            &&& match axis {
                Axis::Horizontal => place->Some_0.size.height == this.size.height,
                Axis::Vertical => place->Some_0.size.width == this.size.width,
            }
        }),
{
}

/// The stretch ratio law: a column of height `h` whose two children stretch
/// with the ratios two and one gives them two thirds and one third of `h`,
/// each rounded down, one below the other.
pub proof fn lemma_stretch_ratio(this: RealLocation)
    requires
        0 <= this.size.height,
    ensures
        ({
            let unit = crate::number::UNIT;
            let children = seq![
                Some(SmallestSize { width: SmallestLength::ParentWidth(unit), height: SmallestLength::ParentHeight((2 * unit) as i64) }),
                Some(SmallestSize { width: SmallestLength::ParentWidth(unit), height: SmallestLength::ParentHeight(unit) }),
            ];
            let totals = Totals { min_main: 0, ratio_sum: (3 * unit) as i64, cross: 0 };
            let first = Axis::Vertical.place_spec(this, children, totals, 0);
            let second = Axis::Vertical.place_spec(this, children, totals, 1);
            &&& Axis::Vertical.totals_spec(children, 2) == Ok::<Totals, LayoutError>(totals)
            &&& first is Some
            &&& second is Some
            &&& first->Some_0.size.height == (2 * this.size.height) / 3
            &&& second->Some_0.size.height == this.size.height / 3
            &&& first->Some_0.position.y == this.position.y
            &&& second->Some_0.position.y == plus_spec(this.position.y as int, (2 * this.size.height) / 3)
        }),
{
    let unit = crate::number::UNIT;
    let h = this.size.height as int;
    let children = seq![
        Some(SmallestSize { width: SmallestLength::ParentWidth(unit), height: SmallestLength::ParentHeight((2 * unit) as i64) }),
        Some(SmallestSize { width: SmallestLength::ParentWidth(unit), height: SmallestLength::ParentHeight(unit) }),
    ];
    let totals = Totals { min_main: 0, ratio_sum: (3 * unit) as i64, cross: 0 };
    reveal_with_fuel(Axis::totals_spec, 3);
    reveal_with_fuel(Axis::cursor_spec, 3);
    assert(Axis::Vertical.totals_spec(children, 2) == Ok::<Totals, LayoutError>(totals));
    lemma_stretch_share(h, 2 * unit, 3 * unit);
    lemma_stretch_share(h, unit as int, 3 * unit);
    vstd::arithmetic::div_mod::lemma_div_multiples_vanish_quotient(unit as int, 2 * h, 3);
    vstd::arithmetic::div_mod::lemma_div_multiples_vanish_quotient(unit as int, h, 3);
    assert(h * (2 * unit) == unit * (2 * h)) by (nonlinear_arith);
    assert(h * unit == unit * h) by (nonlinear_arith);
    assert(3 * unit == unit * 3);
    assert(Axis::empty_spec(this.size.height, totals) == h);
}

} // verus!
