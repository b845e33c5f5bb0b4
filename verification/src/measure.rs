//! The measurement pass: the smallest size of every visible node, found
//! from the leaves up.

use vstd::prelude::*;
use crate::number::{UNIT, plus, plus_spec};
use crate::bitmap_text::{BitmapText, Metrics};
use crate::error::LayoutError;
use crate::flex::Axis;
use crate::location::{Location, ScreenSize};
use crate::measured::{Measured, Glyph, sizes, check_resolved, real_sizes, real_sizes_spec};
use crate::node::{Node, Stack, Row, Column, Wrap, Grid, BorderGrid, visible_count, visible_count_spec};
use crate::units::{RealSize, SmallestLength, SmallestSize};

verus! {

/// What a node's declaration says of its size before its content is known.
#[derive(Clone, Copy, Debug, PartialEq, Eq, Structural)]
pub struct Frame {
    /// The declared size, resolved as far as the screen and a parent that
    /// shrinks to its content allow.
    pub declared: SmallestSize,
    /// The space that the padding takes.
    pub padding: RealSize,
    /// The space that the node offers to its content.
    pub inner: SmallestSize,
}

/// The declared size of a node in the space `parent`.
pub open spec fn declared_spec(location: Location, parent: SmallestSize, screen: ScreenSize) -> SmallestSize {
    location.size.smallest_size_spec(screen).parent_to_smallest_spec(parent)
}

/// The frame of a node in the space `parent`. A padding that cannot be
/// resolved is an error.
pub open spec fn frame_spec(location: Location, parent: SmallestSize, screen: ScreenSize) -> Result<Frame, LayoutError> {
    let declared = declared_spec(location, parent, screen);
    match location.padding.to_screen_spec(parent, declared, screen) {
        Err(e) => Err(e),
        Ok(padding) => Ok(Frame { declared, padding, inner: declared.inner_parent_spec(parent, padding) }),
    }
}

/// Resolves the frame of a node.
pub fn frame(location: &Location, parent: &SmallestSize, screen: &ScreenSize) -> (r: Result<Frame, LayoutError>)
    ensures
        r == frame_spec(*location, *parent, *screen),
{
    let declared = location.size.smallest_size(screen).parent_to_smallest(parent);
    match location.padding.to_screen(parent, &declared, screen) {
        Err(e) => Err(e),
        Ok(padding) => Ok(Frame { declared, padding, inner: declared.inner_parent(parent, padding) }),
    }
}

/// The measured size of a node with the frame `frame` whose content needs
/// `content`.
pub open spec fn finish_spec(frame: Frame, content: Result<RealSize, LayoutError>) -> Result<SmallestSize, LayoutError> {
    match content {
        Err(e) => Err(e),
        Ok(size) => Ok(frame.declared.with_padding_spec(frame.padding, size)),
    }
}

/// The space in which every child shrinks to its content.
pub open spec fn shrunk_spec() -> SmallestSize {
    SmallestSize { width: SmallestLength::SmallestWidth(UNIT), height: SmallestLength::SmallestHeight(UNIT) }
}

/// What the content of a stack needs, from the sizes of its children.
pub open spec fn stack_content_spec(children: Result<Seq<Option<SmallestSize>>, LayoutError>) -> Result<RealSize, LayoutError> {
    match children {
        Err(e) => Err(e),
        Ok(list) => match real_sizes_spec(list, list.len() as int) {
            Err(e) => Err(e),
            Ok(reals) => Ok(crate::stack::content_spec(reals, reals.len() as int)),
        },
    }
}

/// What the content of a row or column needs, from the sizes of its
/// children.
pub open spec fn flex_content_spec(axis: Axis, children: Result<Seq<Option<SmallestSize>>, LayoutError>) -> Result<RealSize, LayoutError> {
    match children {
        Err(e) => Err(e),
        Ok(list) => match axis.totals_spec(list, list.len() as int) {
            Err(e) => Err(e),
            Ok(totals) => Ok(axis.content_spec(totals)),
        },
    }
}

/// What the content of a wrap needs, from the sizes of its children and the
/// width that it may fill, which must be known.
pub open spec fn wrap_content_spec(inner: SmallestSize, children: Result<Seq<Option<SmallestSize>>, LayoutError>) -> Result<RealSize, LayoutError> {
    match inner.width.screen_spec() {
        Err(e) => Err(e),
        Ok(bound) => match children {
            Err(e) => Err(e),
            Ok(list) => match real_sizes_spec(list, list.len() as int) {
                Err(e) => Err(e),
                Ok(reals) => Ok(crate::wrap::content_spec(reals, bound)),
            },
        },
    }
}

/// The size of the cells of a grid that offers `inner` to its content.
pub open spec fn grid_cell_spec(grid: Grid, inner: SmallestSize, screen: ScreenSize) -> Result<RealSize, LayoutError> {
    match grid.grid_size {
        None => Err(LayoutError::MissingGridSize),
        Some(grid_size) => grid_size.real_size_spec(inner, screen),
    }
}

/// What the content of a grid needs: its cells, as many as it has visible
/// children, in the columns and rows that the offered width allows.
pub open spec fn grid_content_spec(grid: Grid, inner: SmallestSize, screen: ScreenSize) -> Result<RealSize, LayoutError> {
    match grid_cell_spec(grid, inner, screen) {
        Err(e) => Err(e),
        Ok(cell) => match crate::grid::partition_spec(inner, cell, visible_count_spec(grid.children@, grid.children@.len() as int)) {
            Err(e) => Err(e),
            Ok(partition) => Ok(crate::grid::content_spec(cell, partition)),
        },
    }
}

/// The space that the border of a border grid takes.
pub open spec fn border_spec(grid: BorderGrid, inner: SmallestSize, screen: ScreenSize) -> Result<RealSize, LayoutError> {
    if grid.quadrants is None {
        Err(LayoutError::MissingQuadrants)
    } else {
        match grid.border_size {
            None => Err(LayoutError::MissingBorderSize),
            Some(border_size) => border_size.real_size_spec(inner, screen),
        }
    }
}

/// The sizes that a text is laid out with in the space `inner`, wrapped at
/// `bound`.
pub open spec fn metrics_spec(text: BitmapText, inner: SmallestSize, bound: Option<i64>, screen: ScreenSize) -> Result<Metrics, LayoutError> {
    match text.char_size {
        None => Err(LayoutError::MissingCharSize),
        Some(char_size) => match char_size.to_screen_spec(inner, screen) {
            Err(e) => Err(e),
            Ok(size) => match text.line_spacing.known_spec(inner, screen.height) {
                Err(e) => Err(e),
                Ok(spacing) => Ok(Metrics {
                    char_size: size,
                    line_height: plus_spec(size.height as int, spacing as int) as i64,
                    bound,
                }),
            },
        },
    }
}

/// Resolves the sizes that a text is laid out with.
pub fn metrics(text: &BitmapText, inner: &SmallestSize, bound: Option<i64>, screen: &ScreenSize) -> (r: Result<Metrics, LayoutError>)
    ensures
        r == metrics_spec(*text, *inner, bound, *screen),
{
    match &text.char_size {
        None => Err(LayoutError::MissingCharSize),
        Some(char_size) => match char_size.to_screen(inner, screen) {
            Err(e) => Err(e),
            Ok(size) => match text.line_spacing.known(inner, &screen.height) {
                Err(e) => Err(e),
                Ok(spacing) => Ok(Metrics { char_size: size, line_height: plus(size.height, spacing), bound }),
            },
        },
    }
}

/// Where a text that is offered `inner` wraps its lines: at a known width,
/// or nowhere if the text shrinks to its content. A width that depends on
/// anything else is an error.
pub open spec fn text_bound_spec(inner: SmallestSize) -> Result<Option<i64>, LayoutError> {
    match inner.width {
        SmallestLength::Screen(width) => Ok(Some(width)),
        SmallestLength::SmallestWidth(_) => Ok(None),
        SmallestLength::SmallestHeight(_) => Err(LayoutError::TextSmallestHeightUnknown),
        SmallestLength::ParentWidth(_) => Err(LayoutError::TextWidthUnknown),
        SmallestLength::ParentHeight(_) => Err(LayoutError::TextHeightUnknown),
    }
}

/// The glyphs of a text that is offered `inner`, and the size they take.
pub open spec fn text_layout_spec(text: BitmapText, inner: SmallestSize, screen: ScreenSize) -> Result<(Seq<Glyph>, RealSize), LayoutError> {
    match text_bound_spec(inner) {
        Err(e) => Err(e),
        Ok(bound) => match metrics_spec(text, inner, bound, screen) {
            Err(e) => Err(e),
            Ok(metrics) => Ok(metrics.layout_spec(text.text@)),
        },
    }
}

/// What the content of a text needs.
pub open spec fn text_content_spec(text: BitmapText, inner: SmallestSize, screen: ScreenSize) -> Result<RealSize, LayoutError> {
    match text_layout_spec(text, inner, screen) {
        Err(e) => Err(e),
        Ok(layout) => Ok(layout.1),
    }
}

/// The smallest size of a node that is offered the space `parent`.
///
/// A sprite has the size it declares. A container frames what its content
/// needs; a grid, a border grid and a text only where their declared size
/// asks for it.
pub open spec fn size_spec(node: Node, parent: SmallestSize, screen: ScreenSize) -> Result<SmallestSize, LayoutError>
    decreases node,
{
    match node {
        Node::Sprite(sprite) => Ok(sprite.location.size.smallest_size_spec(screen)),
        Node::Stack(stack) => match frame_spec(stack.location, parent, screen) {
            Err(e) => Err(e),
            Ok(frame) => finish_spec(frame, stack_content_spec(
                child_sizes_spec(stack.children@, frame.inner, screen, stack.children@.len() as int),
            )),
        },
        Node::Row(row) => match frame_spec(row.location, parent, screen) {
            Err(e) => Err(e),
            Ok(frame) => finish_spec(frame, flex_content_spec(
                Axis::Horizontal,
                child_sizes_spec(row.children@, Axis::Horizontal.child_parent_spec(frame.inner), screen, row.children@.len() as int),
            )),
        },
        Node::Column(column) => match frame_spec(column.location, parent, screen) {
            Err(e) => Err(e),
            Ok(frame) => finish_spec(frame, flex_content_spec(
                Axis::Vertical,
                child_sizes_spec(column.children@, Axis::Vertical.child_parent_spec(frame.inner), screen, column.children@.len() as int),
            )),
        },
        Node::Wrap(wrap) => match frame_spec(wrap.location, parent, screen) {
            Err(e) => Err(e),
            Ok(frame) => finish_spec(frame, wrap_content_spec(
                frame.inner,
                child_sizes_spec(wrap.children@, shrunk_spec(), screen, wrap.children@.len() as int),
            )),
        },
        Node::Grid(grid) => if declared_spec(grid.location, parent, screen).is_smallest_spec() {
            match frame_spec(grid.location, parent, screen) {
                Err(e) => Err(e),
                Ok(frame) => finish_spec(frame, grid_content_spec(grid, frame.inner, screen)),
            }
        } else {
            Ok(declared_spec(grid.location, parent, screen))
        },
        Node::BorderGrid(grid) => if declared_spec(grid.location, parent, screen).is_smallest_spec() {
            match frame_spec(grid.location, parent, screen) {
                Err(e) => Err(e),
                Ok(frame) => match border_spec(grid, frame.inner, screen) {
                    Err(e) => Err(e),
                    Ok(border) => {
                        let center = grid.quadrants->Some_0.center;
                        if center.is_visible_spec() {
                            match size_spec(center, frame.inner.shrink_spec(border), screen) {
                                Err(e) => Err(e),
                                Ok(size) => match size.real_size_spec() {
                                    Err(e) => Err(e),
                                    Ok(resolved) => finish_spec(frame, Ok(resolved.plus_spec(border))),
                                },
                            }
                        } else {
                            finish_spec(frame, Ok(RealSize { width: 0, height: 0 }.plus_spec(border)))
                        }
                    },
                },
            }
        } else {
            Ok(declared_spec(grid.location, parent, screen))
        },
        Node::BitmapText(text) => if declared_spec(text.location, parent, screen).is_smallest_spec() {
            match frame_spec(text.location, parent, screen) {
                Err(e) => Err(e),
                Ok(frame) => finish_spec(frame, text_content_spec(text, frame.inner, screen)),
            }
        } else {
            Ok(declared_spec(text.location, parent, screen))
        },
        Node::Optional(child) => match child {
            Some(inner) => size_spec(*inner, parent, screen),
            None => Ok(SmallestSize { width: SmallestLength::Screen(0), height: SmallestLength::Screen(0) }),
        },
    }
}

/// The smallest sizes of the first `n` of some children that are offered
/// the space `parent`: `None` for a child that is invisible. The first child
/// that cannot be measured decides the error.
pub open spec fn child_sizes_spec(children: Seq<Node>, parent: SmallestSize, screen: ScreenSize, n: int) -> Result<Seq<Option<SmallestSize>>, LayoutError>
    decreases children, n,
{
    if n <= 0 || n > children.len() {
        Ok(Seq::empty())
    } else {
        match child_sizes_spec(children, parent, screen, n - 1) {
            Err(e) => Err(e),
            Ok(before) => if children[n - 1].is_visible_spec() {
                match size_spec(children[n - 1], parent, screen) {
                    Err(e) => Err(e),
                    Ok(size) => Ok(before.push(Some(size))),
                }
            } else {
                Ok(before.push(None))
            },
        }
    }
}

/// Whether `measured` is what the measurement pass remembers of `node`: the
/// space it was measured in, its smallest size in that space, and for its
/// kind the measurements of its children, the width to fill, the size of
/// the cells, or the glyphs.
pub open spec fn agrees(measured: Measured, node: Node, screen: ScreenSize) -> bool
    decreases node,
{
    &&& size_spec(node, measured.parent, screen) == Ok::<SmallestSize, LayoutError>(measured.size)
    &&& match node {
        Node::Sprite(_) => true,
        Node::Stack(stack) => match frame_spec(stack.location, measured.parent, screen) {
            Ok(frame) => children_agree(measured.children@, stack.children@, frame.inner, screen),
            Err(_) => false,
        },
        Node::Row(row) => match frame_spec(row.location, measured.parent, screen) {
            Ok(frame) => children_agree(measured.children@, row.children@, Axis::Horizontal.child_parent_spec(frame.inner), screen),
            Err(_) => false,
        },
        Node::Column(column) => match frame_spec(column.location, measured.parent, screen) {
            Ok(frame) => children_agree(measured.children@, column.children@, Axis::Vertical.child_parent_spec(frame.inner), screen),
            Err(_) => false,
        },
        Node::Wrap(wrap) => match frame_spec(wrap.location, measured.parent, screen) {
            Ok(frame) => {
                &&& children_agree(measured.children@, wrap.children@, shrunk_spec(), screen)
                &&& frame.inner.width.screen_spec() == Ok::<i64, LayoutError>(measured.bound)
            },
            Err(_) => false,
        },
        Node::Grid(grid) => if declared_spec(grid.location, measured.parent, screen).is_smallest_spec() {
            match frame_spec(grid.location, measured.parent, screen) {
                Ok(frame) => match grid_cell_spec(grid, frame.inner, screen) {
                    Ok(cell) => measured.cell == Some(cell),
                    Err(_) => false,
                },
                Err(_) => false,
            }
        } else {
            measured.cell is None
        },
        Node::BorderGrid(grid) => if declared_spec(grid.location, measured.parent, screen).is_smallest_spec() {
            match frame_spec(grid.location, measured.parent, screen) {
                Ok(frame) => match border_spec(grid, frame.inner, screen) {
                    Ok(border) => if grid.quadrants->Some_0.center.is_visible_spec() {
                        &&& measured.children@.len() == 1
                        &&& measured.children@[0] is Some
                        &&& measured.children@[0]->Some_0.parent == frame.inner.shrink_spec(border)
                        &&& agrees(measured.children@[0]->Some_0, grid.quadrants->Some_0.center, screen)
                    } else {
                        measured.children@.len() == 0
                    },
                    Err(_) => false,
                },
                Err(_) => false,
            }
        } else {
            measured.children@.len() == 0
        },
        Node::BitmapText(text) => if declared_spec(text.location, measured.parent, screen).is_smallest_spec() {
            match frame_spec(text.location, measured.parent, screen) {
                Ok(frame) => match text_layout_spec(text, frame.inner, screen) {
                    Ok(layout) => measured.glyphs@ == layout.0,
                    Err(_) => false,
                },
                Err(_) => false,
            }
        } else {
            measured.glyphs@.len() == 0
        },
        Node::Optional(child) => match child {
            Some(inner) => agrees(measured, *inner, screen),
            None => true,
        },
    }
}

/// A fraction of one is the fraction.
pub proof fn lemma_times_one(x: int)
    requires
        i64::MIN <= x <= i64::MAX,
    ensures
        crate::number::times_spec(UNIT as int, x) == x,
        crate::number::times_spec(x, UNIT as int) == x,
{
    vstd::arithmetic::div_mod::lemma_div_multiples_vanish(x, UNIT as int);
    assert(x * UNIT == UNIT * x) by (nonlinear_arith);
}

/// A node that is declared as high as its content, without padding, is
/// measured as high as its content needs, and its content is placed with
/// that height, whatever the parent offers.
pub proof fn lemma_shrunk_height(location: Location, parent: SmallestSize, place: crate::units::RealLocation, screen: ScreenSize, max_order: i64, content: RealSize)
    requires
        location.size.height == crate::location::Length::SmallestHeight(UNIT),
        location.padding == (crate::location::Padding {
            up: crate::location::Length::Zero,
            down: crate::location::Length::Zero,
            left: crate::location::Length::Zero,
            right: crate::location::Length::Zero,
        }),
        0 <= content.height,
    ensures
        frame_spec(location, parent, screen) is Ok,
        frame_spec(location, parent, screen)->Ok_0.padding == (RealSize { width: 0, height: 0 }),
        finish_spec(frame_spec(location, parent, screen)->Ok_0, Ok(content)) is Ok,
        ({
            let size = finish_spec(frame_spec(location, parent, screen)->Ok_0, Ok(content))->Ok_0;
            &&& size.height == SmallestLength::Screen(content.height)
            &&& size.real_size_spec() is Ok
            &&& location.children_location_spec(place, size.real_size_spec()->Ok_0, screen, max_order).size.height == content.height
        }),
{
    lemma_times_one(content.height as int);
}

/// A node that is declared as wide as its content, without padding, is
/// measured as wide as its content needs, and its content is placed with
/// that width, whatever the parent offers.
pub proof fn lemma_shrunk_width(location: Location, parent: SmallestSize, place: crate::units::RealLocation, screen: ScreenSize, max_order: i64, content: RealSize)
    requires
        location.size.width == crate::location::Length::SmallestWidth(UNIT),
        location.padding == (crate::location::Padding {
            up: crate::location::Length::Zero,
            down: crate::location::Length::Zero,
            left: crate::location::Length::Zero,
            right: crate::location::Length::Zero,
        }),
        0 <= content.width,
    ensures
        frame_spec(location, parent, screen) is Ok,
        frame_spec(location, parent, screen)->Ok_0.padding == (RealSize { width: 0, height: 0 }),
        finish_spec(frame_spec(location, parent, screen)->Ok_0, Ok(content)) is Ok,
        ({
            let size = finish_spec(frame_spec(location, parent, screen)->Ok_0, Ok(content))->Ok_0;
            &&& size.width == SmallestLength::Screen(content.width)
            &&& size.real_size_spec() is Ok
            &&& location.children_location_spec(place, size.real_size_spec()->Ok_0, screen, max_order).size.width == content.width
        }),
{
    lemma_times_one(content.width as int);
}

/// Whether a node's smallest size can be found: true of every node but a
/// sprite that is declared as large as its content, of which it has none.
pub open spec fn sized(node: Node) -> bool
    decreases node,
{
    match node {
        Node::Sprite(sprite) => {
            &&& !(sprite.location.size.width is SmallestWidth)
            &&& !(sprite.location.size.width is SmallestHeight)
            &&& !(sprite.location.size.height is SmallestWidth)
            &&& !(sprite.location.size.height is SmallestHeight)
        },
        Node::Optional(child) => match child {
            Some(inner) => sized(*inner),
            None => true,
        },
        _ => true,
    }
}

/// A size that is finished with what the content needs waits for no
/// content any more.
proof fn lemma_finished(frame: Frame, content: Result<RealSize, LayoutError>)
    ensures
        finish_spec(frame, content) is Ok ==> !finish_spec(frame, content)->Ok_0.is_smallest_spec(),
{
}

/// The smallest size of a node never waits for the node's own content:
/// each axis is known or depends on the parent alone.
pub proof fn lemma_measured_is_resolved(node: Node, parent: SmallestSize, screen: ScreenSize)
    requires
        sized(node),
        size_spec(node, parent, screen) is Ok,
    ensures
        !size_spec(node, parent, screen)->Ok_0.is_smallest_spec(),
    decreases node,
{
    match node {
        Node::Sprite(_) => {},
        Node::Stack(stack) => {
            let frame = frame_spec(stack.location, parent, screen)->Ok_0;
            lemma_finished(frame, stack_content_spec(child_sizes_spec(stack.children@, frame.inner, screen, stack.children@.len() as int)));
        },
        Node::Row(row) => {
            let frame = frame_spec(row.location, parent, screen)->Ok_0;
            lemma_finished(frame, flex_content_spec(
                Axis::Horizontal,
                child_sizes_spec(row.children@, Axis::Horizontal.child_parent_spec(frame.inner), screen, row.children@.len() as int),
            ));
        },
        Node::Column(column) => {
            let frame = frame_spec(column.location, parent, screen)->Ok_0;
            lemma_finished(frame, flex_content_spec(
                Axis::Vertical,
                child_sizes_spec(column.children@, Axis::Vertical.child_parent_spec(frame.inner), screen, column.children@.len() as int),
            ));
        },
        Node::Wrap(wrap) => {
            let frame = frame_spec(wrap.location, parent, screen)->Ok_0;
            lemma_finished(frame, wrap_content_spec(
                frame.inner,
                child_sizes_spec(wrap.children@, shrunk_spec(), screen, wrap.children@.len() as int),
            ));
        },
        Node::Grid(grid) => {
            if declared_spec(grid.location, parent, screen).is_smallest_spec() {
                let frame = frame_spec(grid.location, parent, screen)->Ok_0;
                lemma_finished(frame, grid_content_spec(grid, frame.inner, screen));
            }
        },
        Node::BorderGrid(grid) => {
            if declared_spec(grid.location, parent, screen).is_smallest_spec() {
                let frame = frame_spec(grid.location, parent, screen)->Ok_0;
                let border = border_spec(grid, frame.inner, screen)->Ok_0;
                let center = grid.quadrants->Some_0.center;
                if center.is_visible_spec() {
                    let resolved = size_spec(center, frame.inner.shrink_spec(border), screen)->Ok_0.real_size_spec()->Ok_0;
                    lemma_finished(frame, Ok(resolved.plus_spec(border)));
                } else {
                    lemma_finished(frame, Ok(RealSize { width: 0, height: 0 }.plus_spec(border)));
                }
            }
        },
        Node::BitmapText(text) => {
            if declared_spec(text.location, parent, screen).is_smallest_spec() {
                let frame = frame_spec(text.location, parent, screen)->Ok_0;
                lemma_finished(frame, text_content_spec(text, frame.inner, screen));
            }
        },
        Node::Optional(child) => match child {
            Some(inner) => {
                lemma_measured_is_resolved(*inner, parent, screen);
            },
            None => {},
        },
    }
}

/// A measurement that agrees with a node holds the node's smallest size.
pub proof fn lemma_agrees_size(measured: Measured, node: Node, screen: ScreenSize)
    requires
        agrees(measured, node, screen),
    ensures
        size_spec(node, measured.parent, screen) == Ok::<SmallestSize, LayoutError>(measured.size),
{
}

/// Whether `measured` holds, for each of `children`, what the measurement
/// pass remembers of it in the space `parent`, and nothing for a child that
/// is invisible.
pub open spec fn children_agree(measured: Seq<Option<Measured>>, children: Seq<Node>, parent: SmallestSize, screen: ScreenSize) -> bool
    decreases children,
{
    &&& measured.len() == children.len()
    &&& forall|i: int| 0 <= i < children.len() ==> if (#[trigger] children[i]).is_visible_spec() {
        &&& measured[i] is Some
        &&& measured[i]->Some_0.parent == parent
        &&& agrees(measured[i]->Some_0, children[i], screen)
    } else {
        measured[i] is None
    }
}

/// The sizes of children whose measurements agree with them are the sizes
/// that the children have.
pub proof fn lemma_agreed_sizes(measured: Seq<Option<Measured>>, children: Seq<Node>, parent: SmallestSize, screen: ScreenSize, n: int)
    requires
        children_agree(measured, children, parent, screen),
        0 <= n <= children.len(),
    ensures
        measured.len() == children.len(),
        child_sizes_spec(children, parent, screen, n) == Ok::<Seq<Option<SmallestSize>>, LayoutError>(sizes(measured).subrange(0, n)),
    decreases n,
{
    if n > 0 {
        lemma_agreed_sizes(measured, children, parent, screen, n - 1);
        let child = children[n - 1];
        if child.is_visible_spec() {
            lemma_agrees_size(measured[n - 1]->Some_0, child, screen);
        }
        assert(sizes(measured).subrange(0, n) =~= sizes(measured).subrange(0, n - 1).push(sizes(measured)[n - 1]));
    } else {
        assert(sizes(measured).subrange(0, 0) =~= Seq::<Option<SmallestSize>>::empty());
    }
}

/// An error among the first `i` children is the error of every longer prefix.
pub proof fn lemma_child_sizes_error(children: Seq<Node>, parent: SmallestSize, screen: ScreenSize, i: int, n: int)
    requires
        0 <= i <= n <= children.len(),
        child_sizes_spec(children, parent, screen, i) is Err,
    ensures
        child_sizes_spec(children, parent, screen, n) == child_sizes_spec(children, parent, screen, i),
    decreases n - i,
{
    if i < n {
        lemma_child_sizes_error(children, parent, screen, i, n - 1);
    }
}

/// Measures each visible child in the space `parent`.
pub fn measure_children(children: &Vec<Node>, parent: &SmallestSize, screen: &ScreenSize) -> (r: Result<Vec<Option<Measured>>, LayoutError>)
    ensures
        match r {
            Ok(list) => {
                &&& children_agree(list@, children@, *parent, *screen)
                &&& child_sizes_spec(children@, *parent, *screen, children@.len() as int)
                    == Ok::<Seq<Option<SmallestSize>>, LayoutError>(sizes(list@))
            },
            Err(e) => child_sizes_spec(children@, *parent, *screen, children@.len() as int)
                == Err::<Seq<Option<SmallestSize>>, LayoutError>(e),
        },
    decreases *children,
{
    let mut list: Vec<Option<Measured>> = Vec::new();
    let mut i: usize = 0;
    proof {
        assert(sizes(list@) =~= Seq::<Option<SmallestSize>>::empty());
    }
    while i < children.len()
        invariant
            0 <= i <= children@.len(),
            list@.len() == i,
            forall|j: int| 0 <= j < i ==> if (#[trigger] children@[j]).is_visible_spec() {
                &&& list@[j] is Some
                &&& list@[j]->Some_0.parent == *parent
                &&& agrees(list@[j]->Some_0, children@[j], *screen)
            } else {
                list@[j] is None
            },
            child_sizes_spec(children@, *parent, *screen, i as int)
                == Ok::<Seq<Option<SmallestSize>>, LayoutError>(sizes(list@)),
        decreases children@.len() - i,
    {
        let ghost before = list@;
        if children[i].is_visible() {
            proof {
                assert(decreases_to!(*children => children[i as int]));
            }
            match measure(&children[i], parent, screen) {
                Err(e) => {
                    proof {
                        lemma_child_sizes_error(children@, *parent, *screen, i as int + 1, children@.len() as int);
                    }
                    return Err(e);
                },
                Ok(m) => {
                    proof {
                        lemma_agrees_size(m, children@[i as int], *screen);
                    }
                    list.push(Some(m));
                },
            }
        } else {
            list.push(None);
        }
        proof {
            assert(sizes(list@) =~= sizes(before).push(sizes(list@)[i as int]));
        }
        i = i + 1;
    }
    Ok(list)
}

fn measure_stack(stack: &Stack, parent: &SmallestSize, screen: &ScreenSize) -> (r: Result<Measured, LayoutError>)
    ensures
        match r {
            Ok(measured) => measured.parent == *parent && agrees(measured, Node::Stack(*stack), *screen),
            Err(e) => size_spec(Node::Stack(*stack), *parent, *screen) == Err::<SmallestSize, LayoutError>(e),
        },
    decreases *stack,
{
    let fr = match frame(&stack.location, parent, screen) {
        Ok(fr) => fr,
        Err(e) => { return Err(e); },
    };
    let kids = match measure_children(&stack.children, &fr.inner, screen) {
        Ok(kids) => kids,
        Err(e) => { return Err(e); },
    };
    match check_resolved(&kids) {
        Ok(()) => {},
        Err(e) => { return Err(e); },
    }
    let reals = real_sizes(&kids);
    let content = crate::stack::content(&reals);
    let size = fr.declared.with_padding(fr.padding, content);
    Ok(Measured { parent: *parent, size, children: kids, bound: 0, cell: None, glyphs: Vec::new() })
}

fn measure_row(row: &Row, parent: &SmallestSize, screen: &ScreenSize) -> (r: Result<Measured, LayoutError>)
    ensures
        match r {
            Ok(measured) => measured.parent == *parent && agrees(measured, Node::Row(*row), *screen),
            Err(e) => size_spec(Node::Row(*row), *parent, *screen) == Err::<SmallestSize, LayoutError>(e),
        },
    decreases *row,
{
    let fr = match frame(&row.location, parent, screen) {
        Ok(fr) => fr,
        Err(e) => { return Err(e); },
    };
    let child_parent = Axis::Horizontal.child_parent(&fr.inner);
    let kids = match measure_children(&row.children, &child_parent, screen) {
        Ok(kids) => kids,
        Err(e) => { return Err(e); },
    };
    match Axis::Horizontal.check(&kids) {
        Ok(()) => {},
        Err(e) => { return Err(e); },
    }
    let totals = Axis::Horizontal.children_size(&kids);
    let content = Axis::Horizontal.content(&totals);
    let size = fr.declared.with_padding(fr.padding, content);
    Ok(Measured { parent: *parent, size, children: kids, bound: 0, cell: None, glyphs: Vec::new() })
}

fn measure_column(column: &Column, parent: &SmallestSize, screen: &ScreenSize) -> (r: Result<Measured, LayoutError>)
    ensures
        match r {
            Ok(measured) => measured.parent == *parent && agrees(measured, Node::Column(*column), *screen),
            Err(e) => size_spec(Node::Column(*column), *parent, *screen) == Err::<SmallestSize, LayoutError>(e),
        },
    decreases *column,
{
    let fr = match frame(&column.location, parent, screen) {
        Ok(fr) => fr,
        Err(e) => { return Err(e); },
    };
    let child_parent = Axis::Vertical.child_parent(&fr.inner);
    let kids = match measure_children(&column.children, &child_parent, screen) {
        Ok(kids) => kids,
        Err(e) => { return Err(e); },
    };
    match Axis::Vertical.check(&kids) {
        Ok(()) => {},
        Err(e) => { return Err(e); },
    }
    let totals = Axis::Vertical.children_size(&kids);
    let content = Axis::Vertical.content(&totals);
    let size = fr.declared.with_padding(fr.padding, content);
    Ok(Measured { parent: *parent, size, children: kids, bound: 0, cell: None, glyphs: Vec::new() })
}

fn measure_wrap(wrap: &Wrap, parent: &SmallestSize, screen: &ScreenSize) -> (r: Result<Measured, LayoutError>)
    ensures
        match r {
            Ok(measured) => measured.parent == *parent && agrees(measured, Node::Wrap(*wrap), *screen),
            Err(e) => size_spec(Node::Wrap(*wrap), *parent, *screen) == Err::<SmallestSize, LayoutError>(e),
        },
    decreases *wrap,
{
    let fr = match frame(&wrap.location, parent, screen) {
        Ok(fr) => fr,
        Err(e) => { return Err(e); },
    };
    let bound = match fr.inner.width.screen() {
        Ok(bound) => bound,
        Err(e) => { return Err(e); },
    };
    let child_parent = SmallestSize {
        width: SmallestLength::SmallestWidth(UNIT),
        height: SmallestLength::SmallestHeight(UNIT),
    };
    let kids = match measure_children(&wrap.children, &child_parent, screen) {
        Ok(kids) => kids,
        Err(e) => { return Err(e); },
    };
    match check_resolved(&kids) {
        Ok(()) => {},
        Err(e) => { return Err(e); },
    }
    let reals = real_sizes(&kids);
    let content = crate::wrap::content(&reals, bound);
    let size = fr.declared.with_padding(fr.padding, content);
    Ok(Measured { parent: *parent, size, children: kids, bound, cell: None, glyphs: Vec::new() })
}

fn measure_grid(grid: &Grid, parent: &SmallestSize, screen: &ScreenSize) -> (r: Result<Measured, LayoutError>)
    ensures
        match r {
            Ok(measured) => measured.parent == *parent && agrees(measured, Node::Grid(*grid), *screen),
            Err(e) => size_spec(Node::Grid(*grid), *parent, *screen) == Err::<SmallestSize, LayoutError>(e),
        },
{
    let declared = grid.location.size.smallest_size(screen).parent_to_smallest(parent);
    if !declared.is_smallest() {
        return Ok(Measured::leaf(*parent, declared));
    }
    let fr = match frame(&grid.location, parent, screen) {
        Ok(fr) => fr,
        Err(e) => { return Err(e); },
    };
    let cell = match &grid.grid_size {
        None => { return Err(LayoutError::MissingGridSize); },
        Some(grid_size) => match grid_size.real_size(&fr.inner, screen) {
            Ok(cell) => cell,
            Err(e) => { return Err(e); },
        },
    };
    let visible = visible_count(&grid.children);
    match crate::grid::check(&fr.inner) {
        Ok(()) => {},
        Err(e) => { return Err(e); },
    }
    let partition = crate::grid::measure(&fr.inner, &cell, visible);
    let content = crate::grid::content(&cell, &partition);
    let size = fr.declared.with_padding(fr.padding, content);
    Ok(Measured { parent: *parent, size, children: Vec::new(), bound: 0, cell: Some(cell), glyphs: Vec::new() })
}

fn measure_border_grid(grid: &BorderGrid, parent: &SmallestSize, screen: &ScreenSize) -> (r: Result<Measured, LayoutError>)
    ensures
        match r {
            Ok(measured) => measured.parent == *parent && agrees(measured, Node::BorderGrid(*grid), *screen),
            Err(e) => size_spec(Node::BorderGrid(*grid), *parent, *screen) == Err::<SmallestSize, LayoutError>(e),
        },
    decreases *grid,
{
    let declared = grid.location.size.smallest_size(screen).parent_to_smallest(parent);
    if !declared.is_smallest() {
        return Ok(Measured::leaf(*parent, declared));
    }
    let fr = match frame(&grid.location, parent, screen) {
        Ok(fr) => fr,
        Err(e) => { return Err(e); },
    };
    let quadrants = match &grid.quadrants {
        None => { return Err(LayoutError::MissingQuadrants); },
        Some(quadrants) => quadrants,
    };
    let border = match &grid.border_size {
        None => { return Err(LayoutError::MissingBorderSize); },
        Some(border_size) => match border_size.real_size(&fr.inner, screen) {
            Ok(border) => border,
            Err(e) => { return Err(e); },
        },
    };
    if quadrants.center.is_visible() {
        proof {
            assert(decreases_to!(grid.quadrants => grid.quadrants->Some_0));
        }
        let center_parent = fr.inner.shrink(border);
        let center = match measure(&quadrants.center, &center_parent, screen) {
            Ok(center) => center,
            Err(e) => { return Err(e); },
        };
        let resolved = match center.size.real_size() {
            Ok(resolved) => resolved,
            Err(e) => { return Err(e); },
        };
        let size = fr.declared.with_padding(fr.padding, resolved.plus(border));
        let mut kids: Vec<Option<Measured>> = Vec::new();
        kids.push(Some(center));
        Ok(Measured { parent: *parent, size, children: kids, bound: 0, cell: None, glyphs: Vec::new() })
    } else {
        let size = fr.declared.with_padding(fr.padding, RealSize::zero().plus(border));
        Ok(Measured { parent: *parent, size, children: Vec::new(), bound: 0, cell: None, glyphs: Vec::new() })
    }
}

impl BitmapText {
    /// Tests whether the text can be laid out in the space `parent`, and
    /// says what is wrong if it cannot: the width to fill is neither known
    /// nor left to the text, or the size of a character or the spacing of
    /// the lines is missing or cannot be resolved.
    pub fn check(&self, parent: &SmallestSize, screen: &ScreenSize) -> (r: Result<(), LayoutError>)
        ensures
            match r {
                Ok(()) => {
                    &&& parent.width is Screen || parent.width is SmallestWidth
                    &&& metrics_spec(*self, *parent, text_bound_spec(*parent)->Ok_0, *screen) is Ok
                },
                Err(e) => text_layout_spec(*self, *parent, *screen) == Err::<(Seq<Glyph>, RealSize), LayoutError>(e),
            },
    {
        let bound = match parent.width {
            SmallestLength::Screen(width) => Some(width),
            SmallestLength::SmallestWidth(_) => None,
            SmallestLength::SmallestHeight(_) => { return Err(LayoutError::TextSmallestHeightUnknown); },
            SmallestLength::ParentWidth(_) => { return Err(LayoutError::TextWidthUnknown); },
            SmallestLength::ParentHeight(_) => { return Err(LayoutError::TextHeightUnknown); },
        };
        match metrics(self, parent, bound, screen) {
            Ok(_) => Ok(()),
            Err(e) => Err(e),
        }
    }

    /// Lays out the text in the space `parent` and returns its glyphs and
    /// the size that they take. With a known width the lines are wrapped at
    /// it; where the text is as wide as its content, no line is wrapped.
    ///
    /// A width that depends on anything else must not come here: the height
    /// of a text cannot be known while its width is not. Nor must a text
    /// without a size for its characters. [`BitmapText::check`] tests for
    /// both.
    pub fn children_size(&self, parent: &SmallestSize, screen: &ScreenSize) -> (r: (Vec<Glyph>, RealSize))
        requires
            parent.width is Screen || parent.width is SmallestWidth,
            metrics_spec(*self, *parent, text_bound_spec(*parent)->Ok_0, *screen) is Ok,
        ensures
            text_layout_spec(*self, *parent, *screen) == Ok::<(Seq<Glyph>, RealSize), LayoutError>((r.0@, r.1)),
            parent.width is Screen ==> r.0@ == metrics_spec(*self, *parent, Some(parent.width->Screen_0), *screen)->Ok_0.layout_spec(self.text@).0,
            parent.width is SmallestWidth ==> r.0@ == metrics_spec(*self, *parent, None, *screen)->Ok_0.layout_spec(self.text@).0,
            r.0@.len() == crate::bitmap_text::char_count_spec(
                crate::unicode::lines_spec(self.text@),
                crate::unicode::lines_spec(self.text@).len() as int,
            ),
    {
        let bound = match parent.width {
            SmallestLength::Screen(width) => Some(width),
            _ => None,
        };
        match metrics(self, parent, bound, screen) {
            Ok(m) => m.layout(&self.text),
            Err(_) => (Vec::new(), RealSize::zero()),
        }
    }
}

fn measure_text(text: &BitmapText, parent: &SmallestSize, screen: &ScreenSize) -> (r: Result<Measured, LayoutError>)
    ensures
        match r {
            Ok(measured) => measured.parent == *parent && agrees(measured, Node::BitmapText(*text), *screen),
            Err(e) => size_spec(Node::BitmapText(*text), *parent, *screen) == Err::<SmallestSize, LayoutError>(e),
        },
{
    let declared = text.location.size.smallest_size(screen).parent_to_smallest(parent);
    if !declared.is_smallest() {
        return Ok(Measured::leaf(*parent, declared));
    }
    let fr = match frame(&text.location, parent, screen) {
        Ok(fr) => fr,
        Err(e) => { return Err(e); },
    };
    match text.check(&fr.inner, screen) {
        Ok(()) => {},
        Err(e) => { return Err(e); },
    }
    let (glyphs, content) = text.children_size(&fr.inner, screen);
    let size = fr.declared.with_padding(fr.padding, content);
    Ok(Measured { parent: *parent, size, children: Vec::new(), bound: 0, cell: None, glyphs })
}

/// Returns the smallest size of the node, and what the arrangement pass
/// needs to know of how it was found.
///
/// The measurement of an invisible node is of no use: its parent does not
/// ask for it.
pub fn measure(node: &Node, parent: &SmallestSize, screen: &ScreenSize) -> (r: Result<Measured, LayoutError>)
    ensures
        match r {
            Ok(measured) => measured.parent == *parent && agrees(measured, *node, *screen),
            Err(e) => size_spec(*node, *parent, *screen) == Err::<SmallestSize, LayoutError>(e),
        },
    decreases *node,
{
    match node {
        Node::Sprite(sprite) => Ok(Measured::leaf(*parent, sprite.location.size.smallest_size(screen))),
        Node::Stack(stack) => measure_stack(stack, parent, screen),
        Node::Row(row) => measure_row(row, parent, screen),
        Node::Column(column) => measure_column(column, parent, screen),
        Node::Wrap(wrap) => measure_wrap(wrap, parent, screen),
        Node::Grid(grid) => measure_grid(grid, parent, screen),
        Node::BorderGrid(grid) => measure_border_grid(grid, parent, screen),
        Node::BitmapText(text) => measure_text(text, parent, screen),
        Node::Optional(child) => match child {
            Some(inner) => measure(inner, parent, screen),
            None => Ok(Measured::leaf(*parent, SmallestSize::zero())),
        },
    }
}

} // verus!
