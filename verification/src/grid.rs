//! Grids: every child in a cell of the same size, the cells filling rows
//! from left to right.

use vstd::prelude::*;
use crate::number::{Percentage, plus, scale, whole_quotient};
use crate::number::{plus_spec, scale_spec, quotient, clamp};
use crate::error::LayoutError;
use crate::location::{Length, ScreenSize};
use crate::units::{RealPosition, RealSize, RealLocation, SmallestLength, SmallestSize};

verus! {

/// Size of each child in the grid.
///
/// # Sizing
///
/// * [`Length::ParentWidth`]: the width is relative to the grid's width minus padding.
///
/// * [`Length::ParentHeight`]: the height is relative to the grid's height minus padding.
///
/// * [`Length::SmallestWidth`]: it is an error to use `SmallestWidth`.
///
/// * [`Length::SmallestHeight`]: it is an error to use `SmallestHeight`.
#[derive(Clone, Copy, Debug, PartialEq, Eq, Structural)]
pub struct GridSize {
    pub width: Length,
    pub height: Length,
}

impl GridSize {
    /// The size of a cell inside `parent`; the width is resolved first.
    pub open spec fn real_size_spec(self, parent: SmallestSize, screen: ScreenSize) -> Result<RealSize, LayoutError> {
        match self.width.known_spec(parent, screen.width) {
            Err(e) => Err(e),
            Ok(width) => match self.height.known_spec(parent, screen.height) {
                Err(e) => Err(e),
                Ok(height) => Ok(RealSize { width, height }),
            },
        }
    }

    /// Resolves the size of a cell, which may depend on the grid's own size
    /// but not on any content.
    pub fn real_size(&self, parent: &SmallestSize, screen: &ScreenSize) -> (r: Result<RealSize, LayoutError>)
        ensures
            r == self.real_size_spec(*parent, *screen),
    {
        match self.width.known(parent, &screen.width) {
            Err(e) => Err(e),
            Ok(width) => match self.height.known(parent, &screen.height) {
                Err(e) => Err(e),
                Ok(height) => Ok(RealSize { width, height }),
            },
        }
    }
}

/// How many columns and rows a grid has.
#[derive(Clone, Copy, Debug, PartialEq, Eq, Structural)]
pub struct Partition {
    pub columns: usize,
    pub rows: usize,
}

/// The number of cells that fit side by side: the width divided by the
/// cell's width, rounded down, but at least one and at most one for each
/// child. A cell without width lets every child fit.
pub open spec fn columns_spec(max_width: int, cell_width: int, visible: int) -> int {
    if visible <= 0 {
        0
    } else if cell_width == 0 {
        visible
    } else {
        let fit = quotient(max_width, cell_width);
        if fit < 1 {
            1
        } else if fit > visible {
            visible
        } else {
            fit
        }
    }
}

/// The number of rows that `visible` children fill with `columns` in each:
/// their quotient, rounded up.
pub open spec fn rows_spec(visible: int, columns: int) -> int {
    if columns <= 0 {
        0
    } else {
        (visible + columns - 1) / columns
    }
}

/// Divides `visible` children into rows of as many cells of width
/// `cell_width` as fit into `max_width`.
pub fn partition(max_width: Percentage, cell_width: Percentage, visible: usize) -> (r: Partition)
    ensures
        r.columns == columns_spec(max_width as int, cell_width as int, visible as int),
        r.rows == rows_spec(visible as int, r.columns as int),
{
    if visible == 0 {
        return Partition { columns: 0, rows: 0 };
    }
    let columns: usize = if cell_width == 0 {
        visible
    } else {
        let fit: i128 = whole_quotient(max_width, cell_width);
        if fit < 1 {
            1
        } else if fit > visible as i128 {
            visible
        } else {
            fit as usize
        }
    };
    let whole: usize = visible / columns;
    let rest: usize = visible % columns;
    proof {
        lemma_round_up(visible as int, columns as int);
        vstd::arithmetic::div_mod::lemma_fundamental_div_mod(visible as int, columns as int);
        assert(rest != 0 ==> whole < visible) by (nonlinear_arith)
            requires
                visible == columns * whole + rest,
                1 <= columns,
                0 <= whole,
        ;
    }
    let rows: usize = if rest == 0 {
        whole
    } else {
        whole + 1
    };
    Partition { columns, rows }
}

/// Rounding a quotient up adds one to it exactly where there is a remainder.
pub proof fn lemma_round_up(n: int, d: int)
    requires
        0 <= n,
        0 < d,
    ensures
        (n + d - 1) / d == if n % d == 0 { n / d } else { n / d + 1 },
        n / d <= n,
{
    let q = n / d;
    let r = n % d;
    vstd::arithmetic::div_mod::lemma_fundamental_div_mod(n, d);
    vstd::arithmetic::div_mod::lemma_mod_pos_bound(n, d);
    vstd::arithmetic::div_mod::lemma_div_pos_is_pos(n, d);
    assert(q <= n) by (nonlinear_arith)
        requires
            n == d * q + r,
            0 <= r,
            0 < d,
            0 <= q,
    ;
    if r == 0 {
        assert(n + d - 1 == q * d + (d - 1)) by (nonlinear_arith)
            requires
                n == d * q,
        ;
        vstd::arithmetic::div_mod::lemma_fundamental_div_mod_converse(n + d - 1, d, q, d - 1);
    } else {
        assert(n + d - 1 == (q + 1) * d + (r - 1)) by (nonlinear_arith)
            requires
                n == d * q + r,
        ;
        vstd::arithmetic::div_mod::lemma_fundamental_div_mod_converse(n + d - 1, d, q + 1, r - 1);
    }
}

/// The grid partition law: with a child to place, a grid has at least one
/// column and no more than it has children, and just as many rows as the
/// children need: the last row is not empty and every child has a cell.
pub proof fn lemma_partition(max_width: int, cell_width: int, visible: int)
    requires
        0 < visible,
    ensures
        ({
            let columns = columns_spec(max_width, cell_width, visible);
            let rows = rows_spec(visible, columns);
            &&& 1 <= columns <= visible
            &&& 1 <= rows <= visible
            &&& columns * (rows - 1) < visible
            &&& visible <= columns * rows
            &&& cell_width > 0 && max_width >= 0 ==> columns == if max_width / cell_width < 1 {
                1
            } else if max_width / cell_width > visible {
                visible
            } else {
                max_width / cell_width
            }
        }),
{
    let columns = columns_spec(max_width, cell_width, visible);
    let rows = rows_spec(visible, columns);
    lemma_round_up(visible, columns);
    vstd::arithmetic::div_mod::lemma_fundamental_div_mod(visible, columns);
    vstd::arithmetic::div_mod::lemma_mod_pos_bound(visible, columns);
    vstd::arithmetic::div_mod::lemma_div_pos_is_pos(visible, columns);
    let q = visible / columns;
    let r = visible % columns;
    assert(columns * (rows - 1) < visible && visible <= columns * rows && 1 <= rows <= visible) by (nonlinear_arith)
        requires
            visible == columns * q + r,
            0 <= r < columns,
            rows == if r == 0 { q } else { q + 1 },
            0 <= q,
            1 <= columns <= visible,
    ;
}

/// Every child has its cell inside the grid: the child that comes after
/// `rank` others lies in one of the columns and in one of the rows.
pub proof fn lemma_cell_in_grid(max_width: int, cell_width: int, visible: int, rank: int)
    requires
        0 <= rank < visible,
    ensures
        ({
            let columns = columns_spec(max_width, cell_width, visible);
            let rows = rows_spec(visible, columns);
            &&& 0 <= rank % columns < columns
            &&& 0 <= rank / columns < rows
        }),
{
    let columns = columns_spec(max_width, cell_width, visible);
    let rows = rows_spec(visible, columns);
    lemma_partition(max_width, cell_width, visible);
    vstd::arithmetic::div_mod::lemma_fundamental_div_mod(rank, columns);
    vstd::arithmetic::div_mod::lemma_mod_pos_bound(rank, columns);
    vstd::arithmetic::div_mod::lemma_div_pos_is_pos(rank, columns);
    let q = rank / columns;
    let r = rank % columns;
    assert(q < rows) by (nonlinear_arith)
        requires
            rank == columns * q + r,
            0 <= r,
            rank < visible,
            visible <= columns * rows,
            1 <= columns,
            0 <= q,
            1 <= rows,
    ;
}

/// Without children a grid has neither columns nor rows.
pub proof fn lemma_partition_empty(max_width: int, cell_width: int)
    ensures
        columns_spec(max_width, cell_width, 0) == 0,
        rows_spec(0, 0) == 0,
{
}

/// A count as a number that lengths can be multiplied with.
pub fn count(n: usize) -> (r: i64)
    ensures
        r == clamp(n as int),
{
    if n as u64 > i64::MAX as u64 {
        i64::MAX
    } else {
        n as i64
    }
}

/// The size of `partition` cells of size `cell`.
pub open spec fn content_spec(cell: RealSize, partition: Partition) -> RealSize {
    RealSize {
        width: scale_spec(cell.width as int, clamp(partition.columns as int), 1) as i64,
        height: scale_spec(cell.height as int, clamp(partition.rows as int), 1) as i64,
    }
}

/// The size of the whole grid.
pub fn content(cell: &RealSize, partition: &Partition) -> (r: RealSize)
    ensures
        r == content_spec(*cell, *partition),
{
    RealSize {
        width: scale(cell.width, count(partition.columns), 1),
        height: scale(cell.height, count(partition.rows), 1),
    }
}

/// What a grid needs for `visible` children when it is offered the space
/// `parent`: with a known width, as many columns as fit; where the grid
/// shrinks to its content, a single row.
pub open spec fn partition_spec(parent: SmallestSize, cell: RealSize, visible: int) -> Result<Partition, LayoutError> {
    match parent.width {
        SmallestLength::Screen(max_width) => {
            let columns = columns_spec(max_width as int, cell.width as int, visible);
            Ok(Partition { columns: columns as usize, rows: rows_spec(visible, columns) as usize })
        },
        SmallestLength::SmallestWidth(_) => Ok(Partition {
            columns: visible as usize,
            rows: if visible <= 0 { 0usize } else { 1usize },
        }),
        other => Err(other.pending_spec()),
    }
}

/// Tests whether a grid can be measured in the space `parent`: its width
/// must be known, or be left to the grid. Says what the width waits for if
/// it is neither.
pub fn check(parent: &SmallestSize) -> (r: Result<(), LayoutError>)
    ensures
        match r {
            Ok(()) => parent.width is Screen || parent.width is SmallestWidth,
            Err(e) => {
                &&& !(parent.width is Screen || parent.width is SmallestWidth)
                &&& e == parent.width.pending_spec()
            },
        },
{
    match parent.width {
        SmallestLength::Screen(_) => Ok(()),
        SmallestLength::SmallestWidth(_) => Ok(()),
        SmallestLength::ParentWidth(_) => Err(LayoutError::ParentWidthUnknown),
        SmallestLength::ParentHeight(_) => Err(LayoutError::ParentHeightUnknown),
        SmallestLength::SmallestHeight(_) => Err(LayoutError::SmallestHeightUnknown),
    }
}

/// Decides the columns and rows of a grid during measurement: with a known
/// width as many columns as fit, and a single row where the grid is as wide
/// as its content.
///
/// A width that depends on anything else must not come here. [`check`]
/// tests for it.
pub fn measure(parent: &SmallestSize, cell: &RealSize, visible: usize) -> (r: Partition)
    requires
        parent.width is Screen || parent.width is SmallestWidth,
    ensures
        partition_spec(*parent, *cell, visible as int) == Ok::<Partition, LayoutError>(r),
        parent.width is Screen ==> r.columns == columns_spec(parent.width->Screen_0 as int, cell.width as int, visible as int)
            && r.rows == rows_spec(visible as int, r.columns as int),
        parent.width is SmallestWidth ==> r.columns == visible && r.rows == if visible == 0 { 0usize } else { 1usize },
{
    match parent.width {
        SmallestLength::Screen(max_width) => partition(max_width, cell.width, visible),
        _ => Partition {
            columns: visible,
            rows: if visible == 0 { 0 } else { 1 },
        },
    }
}

/// The place of the cell in column `column` and row `row` of a grid whose
/// content is at `this`.
pub open spec fn cell_spec(this: RealLocation, cell: RealSize, column: int, row: int) -> RealLocation {
    RealLocation {
        position: RealPosition {
            x: plus_spec(this.position.x as int, scale_spec(cell.width as int, clamp(column), 1)) as i64,
            y: plus_spec(this.position.y as int, scale_spec(cell.height as int, clamp(row), 1)) as i64,
        },
        size: cell,
        order: this.order,
    }
}

/// The place of the child that comes after `rank` visible children, in a
/// grid of `columns` columns: the cells fill each row from the left, and a
/// new row starts after every `columns` children.
pub open spec fn place_spec(this: RealLocation, cell: RealSize, columns: int, rank: int) -> RealLocation {
    if columns <= 0 {
        cell_spec(this, cell, 0, 0)
    } else {
        cell_spec(this, cell, rank % columns, rank / columns)
    }
}

/// Places one child of a grid.
pub fn place(this: &RealLocation, cell: &RealSize, columns: usize, rank: usize) -> (r: RealLocation)
    ensures
        r == place_spec(*this, *cell, columns as int, rank as int),
{
    let (column, row) = if columns == 0 {
        (0, 0)
    } else {
        (rank % columns, rank / columns)
    };
    RealLocation {
        position: RealPosition {
            x: plus(this.position.x, scale(cell.width, count(column), 1)),
            y: plus(this.position.y, scale(cell.height, count(row), 1)),
        },
        size: *cell,
        order: this.order,
    }
}

} // verus!
