//! Wrapping: children packed into rows from left to right, a new row
//! starting where the next child would overflow the bound.

use vstd::prelude::*;
use crate::number::{Percentage, plus, larger};
use crate::number::{plus_spec, larger_spec};
use crate::units::{RealPosition, RealSize, RealLocation};

verus! {

/// The state of the packing after some children.
#[derive(Clone, Copy, Debug, PartialEq, Eq, Structural)]
pub struct Packing {
    /// The width of the current row so far.
    pub cursor: Percentage,
    /// The height of the current row so far.
    pub row_height: Percentage,
    /// The heights of the rows above the current one, added up.
    pub top: Percentage,
    /// The width of the widest row so far.
    pub widest: Percentage,
    /// Whether any child was placed yet.
    pub filled: bool,
}

/// The packing before the first child.
pub open spec fn start_spec() -> Packing {
    Packing { cursor: 0, row_height: 0, top: 0, widest: 0, filled: false }
}

/// Whether a child of width `width` starts a new row: the row has width
/// already, and with the child it would be wider than the bound.
pub open spec fn breaks_spec(state: Packing, width: Percentage, bound: Percentage) -> bool {
    let reach = plus_spec(state.cursor as int, width as int);
    reach > width && reach > bound
}

/// The packing after one more child.
pub open spec fn step_spec(state: Packing, child: RealSize, bound: Percentage) -> Packing {
    let reach = plus_spec(state.cursor as int, child.width as int) as i64;
    if breaks_spec(state, child.width, bound) {
        Packing {
            cursor: child.width,
            row_height: larger_spec(0, child.height as int) as i64,
            top: plus_spec(state.top as int, state.row_height as int) as i64,
            widest: larger_spec(state.widest as int, child.width as int) as i64,
            filled: true,
        }
    } else {
        Packing {
            cursor: reach,
            row_height: larger_spec(state.row_height as int, child.height as int) as i64,
            top: state.top,
            widest: larger_spec(state.widest as int, reach as int) as i64,
            filled: true,
        }
    }
}

/// The packing after the first `n` children.
pub open spec fn packing_spec(children: Seq<Option<RealSize>>, bound: Percentage, n: int) -> Packing
    decreases n,
{
    if n <= 0 || n > children.len() {
        start_spec()
    } else {
        let before = packing_spec(children, bound, n - 1);
        match children[n - 1] {
            None => before,
            Some(child) => step_spec(before, child, bound),
        }
    }
}

/// Whether child `i` is the first of a row below the first row.
pub open spec fn starts_row_spec(children: Seq<Option<RealSize>>, bound: Percentage, i: int) -> bool {
    match children[i] {
        None => false,
        Some(child) => breaks_spec(packing_spec(children, bound, i), child.width, bound),
    }
}

/// The size that the packed children need: the widest row, and all the rows'
/// heights added up.
pub open spec fn content_spec(children: Seq<Option<RealSize>>, bound: Percentage) -> RealSize {
    let state = packing_spec(children, bound, children.len() as int);
    RealSize {
        width: state.widest,
        height: if state.filled {
            plus_spec(state.top as int, state.row_height as int) as i64
        } else {
            0
        },
    }
}

fn step(state: &Packing, child: &RealSize, bound: Percentage) -> (r: (Packing, bool))
    ensures
        r.0 == step_spec(*state, *child, bound),
        r.1 == breaks_spec(*state, child.width, bound),
{
    let reach = plus(state.cursor, child.width);
    if reach > child.width && reach > bound {
        (
            Packing {
                cursor: child.width,
                row_height: larger(0, child.height),
                top: plus(state.top, state.row_height),
                widest: larger(state.widest, child.width),
                filled: true,
            },
            true,
        )
    } else {
        (
            Packing {
                cursor: reach,
                row_height: larger(state.row_height, child.height),
                top: state.top,
                widest: larger(state.widest, reach),
                filled: true,
            },
            false,
        )
    }
}

/// Packs the children into rows and returns the size that they need.
pub fn content(children: &Vec<Option<RealSize>>, bound: Percentage) -> (r: RealSize)
    ensures
        r == content_spec(children@, bound),
{
    let mut state = Packing { cursor: 0, row_height: 0, top: 0, widest: 0, filled: false };
    let mut i: usize = 0;
    while i < children.len()
        invariant
            0 <= i <= children@.len(),
            state == packing_spec(children@, bound, i as int),
        decreases children@.len() - i,
    {
        match &children[i] {
            None => {},
            Some(child) => {
                let (next, _) = step(&state, child, bound);
                state = next;
            },
        }
        i = i + 1;
    }
    RealSize {
        width: state.widest,
        height: if state.filled {
            plus(state.top, state.row_height)
        } else {
            0
        },
    }
}

/// The height of the row that holds the children just before position `n`,
/// once the row is complete.
pub open spec fn row_height_spec(children: Seq<Option<RealSize>>, bound: Percentage, n: int) -> Percentage
    decreases children.len() - n,
{
    if n < 0 || n >= children.len() {
        packing_spec(children, bound, children.len() as int).row_height
    } else if starts_row_spec(children, bound, n) {
        packing_spec(children, bound, n).row_height
    } else {
        row_height_spec(children, bound, n + 1)
    }
}

/// Where, from the left edge `left`, the child after the first `n` children
/// would go if it stayed in the row.
pub open spec fn left_spec(children: Seq<Option<RealSize>>, bound: Percentage, left: Percentage, n: int) -> Percentage
    decreases n,
{
    if n <= 0 || n > children.len() {
        left
    } else {
        match children[n - 1] {
            None => left_spec(children, bound, left, n - 1),
            Some(child) => if starts_row_spec(children, bound, n - 1) {
                plus_spec(left as int, child.width as int) as i64
            } else {
                plus_spec(left_spec(children, bound, left, n - 1) as int, child.width as int) as i64
            },
        }
    }
}

/// The upper edge of the row that holds the children just before position
/// `n`, from the upper edge `up` of the first row.
pub open spec fn up_spec(children: Seq<Option<RealSize>>, bound: Percentage, up: Percentage, n: int) -> Percentage
    decreases n,
{
    if n <= 0 || n > children.len() {
        up
    } else if starts_row_spec(children, bound, n - 1) {
        plus_spec(
            up_spec(children, bound, up, n - 1) as int,
            packing_spec(children, bound, n - 1).row_height as int,
        ) as i64
    } else {
        up_spec(children, bound, up, n - 1)
    }
}

/// The place of child `i` in a wrap whose content is at `this`: in its row,
/// after the children before it, as wide as itself and as high as the row.
pub open spec fn place_spec(this: RealLocation, children: Seq<Option<RealSize>>, bound: Percentage, i: int) -> Option<RealLocation> {
    match children[i] {
        None => None,
        Some(child) => Some(RealLocation {
            position: RealPosition {
                x: if starts_row_spec(children, bound, i) {
                    this.position.x
                } else {
                    left_spec(children, bound, this.position.x, i)
                },
                y: up_spec(children, bound, this.position.y, i + 1),
            },
            size: RealSize {
                width: child.width,
                height: row_height_spec(children, bound, i + 1),
            },
            order: this.order,
        }),
    }
}

/// Places the children row by row, with the widths they were measured with.
pub fn placements(this: &RealLocation, children: &Vec<Option<RealSize>>, bound: Percentage) -> (r: Vec<Option<RealLocation>>)
    ensures
        r@.len() == children@.len(),
        forall|i: int| 0 <= i < children@.len() ==> r@[i] == place_spec(*this, children@, bound, i),
{
    let n = children.len();
    // The packing before each child, and whether the child starts a row.
    let mut states: Vec<Packing> = Vec::new();
    let mut starts: Vec<bool> = Vec::new();
    let mut state = Packing { cursor: 0, row_height: 0, top: 0, widest: 0, filled: false };
    let mut i: usize = 0;
    while i < n
        invariant
            n == children@.len(),
            0 <= i <= n,
            states@.len() == i,
            starts@.len() == i,
            state == packing_spec(children@, bound, i as int),
            forall|j: int| 0 <= j < i ==> states@[j] == packing_spec(children@, bound, j),
            forall|j: int| 0 <= j < i ==> starts@[j] == starts_row_spec(children@, bound, j),
        decreases n - i,
    {
        states.push(state);
        match &children[i] {
            None => {
                starts.push(false);
            },
            Some(child) => {
                let (next, broke) = step(&state, child, bound);
                starts.push(broke);
                state = next;
            },
        }
        i = i + 1;
    }
    // The final height of the row of each child, from the last child back.
    let mut heights: Vec<Percentage> = Vec::new();
    let mut k: usize = 0;
    while k < n
        invariant
            n == children@.len(),
            0 <= k <= n,
            heights@.len() == k,
        decreases n - k,
    {
        heights.push(0);
        k = k + 1;
    }
    let mut height = state.row_height;
    let mut j: usize = n;
    while j > 0
        invariant
            n == children@.len(),
            0 <= j <= n,
            heights@.len() == n,
            states@.len() == n,
            starts@.len() == n,
            height == row_height_spec(children@, bound, j as int),
            state == packing_spec(children@, bound, n as int),
            forall|m: int| 0 <= m < n ==> states@[m] == packing_spec(children@, bound, m),
            forall|m: int| 0 <= m < n ==> starts@[m] == starts_row_spec(children@, bound, m),
            forall|m: int| j <= m < n ==> heights@[m] == row_height_spec(children@, bound, m + 1),
        decreases j,
    {
        j = j - 1;
        heights.set(j, height);
        if starts[j] {
            height = states[j].row_height;
        }
    }
    // The places, from the first child on.
    let mut places: Vec<Option<RealLocation>> = Vec::new();
    let mut left = this.position.x;
    let mut up = this.position.y;
    let mut p: usize = 0;
    while p < n
        invariant
            n == children@.len(),
            0 <= p <= n,
            places@.len() == p,
            heights@.len() == n,
            states@.len() == n,
            starts@.len() == n,
            left == left_spec(children@, bound, this.position.x, p as int),
            up == up_spec(children@, bound, this.position.y, p as int),
            forall|m: int| 0 <= m < n ==> states@[m] == packing_spec(children@, bound, m),
            forall|m: int| 0 <= m < n ==> starts@[m] == starts_row_spec(children@, bound, m),
            forall|m: int| 0 <= m < n ==> heights@[m] == row_height_spec(children@, bound, m + 1),
            forall|m: int| 0 <= m < p ==> places@[m] == place_spec(*this, children@, bound, m),
        decreases n - p,
    {
        match &children[p] {
            None => {
                places.push(None);
            },
            Some(child) => {
                if starts[p] {
                    up = plus(up, states[p].row_height);
                    left = this.position.x;
                }
                places.push(Some(RealLocation {
                    position: RealPosition { x: left, y: up },
                    size: RealSize { width: child.width, height: heights[p] },
                    order: this.order,
                }));
                left = plus(left, child.width);
            },
        }
        p = p + 1;
    }
    places
}

/// The width of the current row is never negative where no child's width
/// is.
pub proof fn lemma_cursor_positive(children: Seq<Option<RealSize>>, bound: Percentage, n: int)
    requires
        0 <= n <= children.len(),
        forall|i: int| 0 <= i < children.len() && children[i] is Some ==> (#[trigger] children[i])->Some_0.width >= 0,
    ensures
        packing_spec(children, bound, n).cursor >= 0,
    decreases n,
{
    if n > 0 {
        lemma_cursor_positive(children, bound, n - 1);
    }
}

/// The wrap law: a child starts a new row exactly where the running width
/// of its row, which has width already, would with it first exceed the bound.
/// Then the finished row's height is added to the heights above and the
/// child opens the next row; otherwise the row grows by the child's width and
/// stays within the bound, unless the child is all the width it has.
///
/// This holds of every bound and width below the largest number that there
/// is, and of that number too as long as the running width stays within it.
pub proof fn lemma_row_boundaries(children: Seq<Option<RealSize>>, bound: Percentage, i: int)
    requires
        0 <= i < children.len(),
        children[i] is Some,
        forall|j: int| 0 <= j < children.len() && children[j] is Some ==> (#[trigger] children[j])->Some_0.width >= 0,
        (bound < i64::MAX && children[i]->Some_0.width < i64::MAX)
            || packing_spec(children, bound, i).cursor + children[i]->Some_0.width <= i64::MAX,
    ensures
        ({
            let before = packing_spec(children, bound, i);
            let after = packing_spec(children, bound, i + 1);
            let child = children[i]->Some_0;
            &&& starts_row_spec(children, bound, i) <==> (before.cursor > 0 && before.cursor + child.width > bound)
            &&& starts_row_spec(children, bound, i) ==> {
                &&& after.cursor == child.width
                &&& after.top == plus_spec(before.top as int, before.row_height as int)
                &&& after.row_height == larger_spec(0, child.height as int)
            }
            &&& !starts_row_spec(children, bound, i) ==> {
                &&& after.cursor == before.cursor + child.width
                &&& after.top == before.top
                &&& after.row_height == larger_spec(before.row_height as int, child.height as int)
                &&& (after.cursor <= bound || before.cursor == 0)
            }
            &&& after.widest >= after.cursor
            &&& after.filled
        }),
{
    lemma_cursor_positive(children, bound, i);
}

/// A child that is wider than the bound sits alone in its row: it starts a
/// row unless it is the first of one, and the child that comes after it
/// starts the next row.
pub proof fn lemma_wide_child_alone(children: Seq<Option<RealSize>>, bound: Percentage, i: int)
    requires
        0 <= i < children.len(),
        children[i] is Some,
        0 <= bound < children[i]->Some_0.width,
        forall|j: int| 0 <= j < children.len() && children[j] is Some ==> 0 <= (#[trigger] children[j])->Some_0.width < i64::MAX,
    ensures
        packing_spec(children, bound, i).cursor > 0 ==> starts_row_spec(children, bound, i),
        packing_spec(children, bound, i + 1).cursor == children[i]->Some_0.width,
        i + 1 < children.len() && children[i + 1] is Some && children[i + 1]->Some_0.width > 0
            ==> starts_row_spec(children, bound, i + 1),
{
    lemma_cursor_positive(children, bound, i);
    lemma_row_boundaries(children, bound, i);
    assert(packing_spec(children, bound, i + 1).cursor == children[i]->Some_0.width);
    if i + 1 < children.len() && children[i + 1] is Some {
        lemma_row_boundaries(children, bound, i + 1);
    }
}

/// The total height of a wrap is the height of its last row added to the
/// heights of the rows above it, and its width is that of its widest row.
pub proof fn lemma_total_size(children: Seq<Option<RealSize>>, bound: Percentage)
    ensures
        ({
            let state = packing_spec(children, bound, children.len() as int);
            let size = content_spec(children, bound);
            &&& size.width == state.widest
            &&& state.filled ==> size.height == plus_spec(state.top as int, state.row_height as int)
            &&& !state.filled ==> size.height == 0 && size.width == 0
        }),
{
    lemma_unfilled(children, bound, children.len() as int);
}

/// Before the first visible child nothing has any size.
pub proof fn lemma_unfilled(children: Seq<Option<RealSize>>, bound: Percentage, n: int)
    requires
        0 <= n <= children.len(),
    ensures
        !packing_spec(children, bound, n).filled ==> packing_spec(children, bound, n) == start_spec(),
    decreases n,
{
    if n > 0 {
        lemma_unfilled(children, bound, n - 1);
    }
}

} // verus!
