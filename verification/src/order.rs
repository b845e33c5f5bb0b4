//! The painter's order of the leaves: what is drawn later is drawn on top.

use vstd::prelude::*;
use crate::arrange::{
    Env, PassState, arrange_border_grid_spec, arrange_child_spec, arrange_children_spec, arrange_column_spec,
    arrange_grid_spec, arrange_quadrant_spec, arrange_quadrants_spec, arrange_row_spec, arrange_spec,
    arrange_sprite_spec, arrange_stack_spec, arrange_text_spec, arrange_wrap_spec, layout_spec,
};
use crate::bitmap_text::BitmapText;
use crate::error::LayoutError;
use crate::location::{Location, Order};
use crate::node::{BorderGrid, Column, Grid, Node, Quadrants, Row, Stack, Wrap};
use crate::sprite::Sprite;
use crate::units::{RealLocation, SmallestSize};

verus! {

/// Whether a node is drawn above everything before it, by a margin.
pub open spec fn is_above(location: Location) -> bool {
    location.order matches Order::Above(margin) && margin > 0
}

/// Whether every node of a tree is drawn above everything before it.
pub open spec fn above_only(node: Node) -> bool
    decreases node,
{
    match node {
        Node::Sprite(n) => is_above(n.location),
        Node::BitmapText(n) => is_above(n.location),
        Node::Stack(n) => is_above(n.location) && all_above(n.children@),
        Node::Row(n) => is_above(n.location) && all_above(n.children@),
        Node::Column(n) => is_above(n.location) && all_above(n.children@),
        Node::Wrap(n) => is_above(n.location) && all_above(n.children@),
        Node::Grid(n) => is_above(n.location) && all_above(n.children@),
        Node::BorderGrid(n) => is_above(n.location) && match n.quadrants {
            None => true,
            Some(q) => quadrants_above(*q),
        },
        Node::Optional(o) => match o {
            Some(child) => above_only(*child),
            None => true,
        },
    }
}

/// Whether every node below each of `children` is drawn above everything
/// before it.
pub open spec fn all_above(children: Seq<Node>) -> bool
    decreases children,
{
    forall|i: int| 0 <= i < children.len() ==> above_only(#[trigger] children[i])
}

/// Whether every node below each of the nine children of a border grid is
/// drawn above everything before it.
pub open spec fn quadrants_above(quadrants: Quadrants) -> bool
    decreases quadrants,
{
    &&& above_only(quadrants.up_left)
    &&& above_only(quadrants.up)
    &&& above_only(quadrants.up_right)
    &&& above_only(quadrants.left)
    &&& above_only(quadrants.center)
    &&& above_only(quadrants.right)
    &&& above_only(quadrants.down_left)
    &&& above_only(quadrants.down)
    &&& above_only(quadrants.down_right)
}

/// Whether each leaf that was drawn has a higher order than every leaf
/// before it, or else the largest order that there is, and none a higher
/// order than the highest that is recorded.
pub open spec fn ordered(state: PassState) -> bool {
    &&& forall|i: int, j: int| 0 <= i < j < state.rendered.len() ==> {
        ||| (#[trigger] state.rendered[i]).order < (#[trigger] state.rendered[j]).order
        ||| state.rendered[j].order == i64::MAX
    }
    &&& forall|i: int| 0 <= i < state.rendered.len() ==> (#[trigger] state.rendered[i]).order <= state.max_order
}

/// Whether no leaf that was drawn has an order below one.
pub open spec fn at_least_one(state: PassState) -> bool {
    forall|i: int| 0 <= i < state.rendered.len() ==> (#[trigger] state.rendered[i]).order >= crate::number::UNIT
}

/// Whether the leaves of `before` are the first leaves of `after`, and the
/// highest order of `after` is that of `before` or the order of a leaf that
/// came after them.
pub open spec fn raised_by_leaves(before: PassState, after: PassState) -> bool {
    &&& before.rendered.len() <= after.rendered.len()
    &&& forall|k: int| 0 <= k < before.rendered.len() ==> #[trigger] after.rendered[k] == before.rendered[k]
    &&& {
        ||| after.max_order == before.max_order
        ||| exists|k: int| before.rendered.len() <= k < after.rendered.len() && (#[trigger] after.rendered[k]).order == after.max_order
    }
}

/// Whether a step of a pass kept the order: the highest order did not
/// fall, and only a leaf raised it; no order below one came in; and where
/// every node of the step is drawn above everything before it (`above`), if
/// the leaves were in order before, they are in order after.
#[verifier::opaque]
pub open spec fn keeps_order(above: bool, before: PassState, after: Result<PassState, LayoutError>) -> bool {
    match after {
        Err(_) => true,
        Ok(state) => {
            &&& before.max_order <= state.max_order
            &&& raised_by_leaves(before, state)
            &&& at_least_one(before) ==> at_least_one(state)
            &&& above && ordered(before) ==> ordered(state)
        },
    }
}

/// A pass that failed, or did nothing, kept the order.
proof fn lemma_still(above: bool, state: PassState, after: Result<PassState, LayoutError>)
    requires
        after is Err || after == Ok::<PassState, LayoutError>(state),
    ensures
        keeps_order(above, state, after),
{
    reveal(keeps_order);
}

/// Counting a node as visited does not touch the order.
proof fn lemma_enter(above: bool, state: PassState, after: Result<PassState, LayoutError>)
    requires
        keeps_order(above, state.enter_spec(), after),
    ensures
        keeps_order(above, state, after),
{
    reveal(keeps_order);
    assert(ordered(state) ==> ordered(state.enter_spec()));
    assert(at_least_one(state) ==> at_least_one(state.enter_spec()));
}

/// Two steps that each kept the order kept it together.
proof fn lemma_chain(above: bool, start: PassState, middle: Result<PassState, LayoutError>, after: Result<PassState, LayoutError>)
    requires
        keeps_order(above, start, middle),
        match middle {
            Ok(state) => keeps_order(above, state, after),
            Err(_) => after is Err,
        },
    ensures
        keeps_order(above, start, after),
{
    reveal(keeps_order);
    if let (Ok(between), Ok(end)) = (middle, after) {
        if end.max_order != start.max_order {
            if end.max_order == between.max_order {
                let k = choose|k: int| start.rendered.len() <= k < between.rendered.len() && (#[trigger] between.rendered[k]).order == between.max_order;
                assert(end.rendered[k] == between.rendered[k]);
            } else {
                let k = choose|k: int| between.rendered.len() <= k < end.rendered.len() && (#[trigger] end.rendered[k]).order == end.max_order;
                assert(start.rendered.len() <= k < end.rendered.len() && end.rendered[k].order == end.max_order);
            }
        }
        assert forall|k: int| 0 <= k < start.rendered.len() implies #[trigger] end.rendered[k] == start.rendered[k] by {
            assert(between.rendered[k] == start.rendered[k]);
        }
    }
}

/// What holds of a step whose nodes are all drawn above everything before
/// them, or not, holds of it as part of a step that has other nodes too.
proof fn lemma_part(part: bool, whole: bool, state: PassState, after: Result<PassState, LayoutError>)
    requires
        keeps_order(part, state, after),
        whole ==> part,
    ensures
        keeps_order(whole, state, after),
{
    reveal(keeps_order);
}

proof fn lemma_sprite(sprite: Sprite, place: RealLocation, env: Env, state: PassState)
    ensures
        keeps_order(is_above(sprite.location), state, arrange_sprite_spec(sprite, place, env, state)),
{
    reveal(arrange_sprite_spec);
    reveal(keeps_order);
    if let Ok(after) = arrange_sprite_spec(sprite, place, env, state) {
        if after.max_order != state.max_order {
            let last = state.rendered.len() as int;
            assert(after.rendered[last].order == after.max_order);
        }
    }
}

proof fn lemma_text(text: BitmapText, parent: SmallestSize, place: RealLocation, env: Env, state: PassState)
    ensures
        keeps_order(is_above(text.location), state, arrange_text_spec(text, parent, place, env, state)),
{
    reveal(arrange_text_spec);
    reveal(keeps_order);
    match arrange_text_spec(text, parent, place, env, state) {
        Err(_) => {},
        Ok(after) => {
            if after.max_order != state.max_order {
                let last = state.rendered.len() as int;
                assert(after.rendered[last].order == after.max_order);
            }
            if text.font is Some && env.fonts.get_spec(text.font->Some_0.handle) is Some {
                let font = text.font->Some_0;
                let font_state = env.fonts.get_spec(font.handle)->Some_0;
                let smallest = crate::measure::size_spec(Node::BitmapText(text), parent, env.screen)->Ok_0.real_size_spec()->Ok_0;
                let this = text.location.children_location_spec(place, smallest, env.screen, state.max_order);
                let glyphs = crate::arrange::text_glyphs_spec(text, parent, this, env.screen)->Ok_0;
                if glyphs.len() > 0 {
                    crate::arrange::lemma_glyph_instances_order(glyphs, this, font.handle, font_state, text.text_color, glyphs.len() as int);
                }
            }
        },
    }
}

proof fn lemma_children(children: Seq<Node>, parent: Option<SmallestSize>, places: Seq<Option<RealLocation>>, env: Env, state: PassState, n: int)
    ensures
        keeps_order(all_above(children), state, arrange_children_spec(children, parent, places, env, state, n)),
    decreases children, n,
{
    let above = all_above(children);
    let after = arrange_children_spec(children, parent, places, env, state, n);
    if n <= 0 || n > children.len() || n > places.len() {
        lemma_still(above, state, after);
    } else {
        lemma_children(children, parent, places, env, state, n - 1);
        let middle = arrange_children_spec(children, parent, places, env, state, n - 1);
        match middle {
            Err(_) => {},
            Ok(before) => match places[n - 1] {
                None => {
                    lemma_still(above, before, after);
                },
                Some(place) => {
                    lemma_child(children[n - 1], parent, place, env, before);
                    assert(above ==> above_only(children[n - 1]));
                    lemma_part(above_only(children[n - 1]), above, before, after);
                },
            },
        }
        lemma_chain(above, state, middle, after);
    }
}

proof fn lemma_child(child: Node, parent: Option<SmallestSize>, place: RealLocation, env: Env, state: PassState)
    ensures
        keeps_order(above_only(child), state, arrange_child_spec(child, parent, place, env, state)),
    decreases child, 1int,
{
    let above = above_only(child);
    if child.is_visible_spec() {
        match parent {
            Some(measured_parent) => {
                lemma_node(child, measured_parent, place, env, state);
            },
            None => {
                if crate::arrange::unmeasurable_spec(child, place.size.smallest_size_spec(), env.screen) is Some {
                    lemma_still(above, state, arrange_child_spec(child, parent, place, env, state));
                } else {
                    lemma_node(child, place.size.smallest_size_spec(), place, env, state);
                }
            },
        }
    } else {
        lemma_still(above, state, arrange_child_spec(child, parent, place, env, state));
    }
}

proof fn lemma_quadrant(above: bool, child: Node, parent: Option<SmallestSize>, place: RealLocation, env: Env, start: PassState, state: Result<PassState, LayoutError>)
    requires
        above ==> above_only(child),
        keeps_order(above, start, state),
    ensures
        keeps_order(above, start, arrange_quadrant_spec(child, parent, place, env, state)),
    decreases child, 2int,
{
    let after = arrange_quadrant_spec(child, parent, place, env, state);
    match state {
        Err(_) => {},
        Ok(before) => {
            lemma_child(child, parent, place, env, before);
            lemma_part(above_only(child), above, before, after);
        },
    }
    lemma_chain(above, start, state, after);
}

proof fn lemma_quadrants(quadrants: Quadrants, center_parent: Option<SmallestSize>, places: crate::border_grid::Places, env: Env, state: PassState)
    ensures
        keeps_order(quadrants_above(quadrants), state, arrange_quadrants_spec(quadrants, center_parent, places, env, state)),
    decreases quadrants, 0int,
{
    let above = quadrants_above(quadrants);
    let s0 = Ok::<PassState, LayoutError>(state);
    lemma_still(above, state, s0);
    lemma_quadrant(above, quadrants.up_left, None, places.up_left, env, state, s0);
    let s1 = arrange_quadrant_spec(quadrants.up_left, None, places.up_left, env, s0);
    lemma_quadrant(above, quadrants.up, None, places.up, env, state, s1);
    let s2 = arrange_quadrant_spec(quadrants.up, None, places.up, env, s1);
    lemma_quadrant(above, quadrants.up_right, None, places.up_right, env, state, s2);
    let s3 = arrange_quadrant_spec(quadrants.up_right, None, places.up_right, env, s2);
    lemma_quadrant(above, quadrants.left, None, places.left, env, state, s3);
    let s4 = arrange_quadrant_spec(quadrants.left, None, places.left, env, s3);
    lemma_quadrant(above, quadrants.center, center_parent, places.center, env, state, s4);
    let s5 = arrange_quadrant_spec(quadrants.center, center_parent, places.center, env, s4);
    lemma_quadrant(above, quadrants.right, None, places.right, env, state, s5);
    let s6 = arrange_quadrant_spec(quadrants.right, None, places.right, env, s5);
    lemma_quadrant(above, quadrants.down_left, None, places.down_left, env, state, s6);
    let s7 = arrange_quadrant_spec(quadrants.down_left, None, places.down_left, env, s6);
    lemma_quadrant(above, quadrants.down, None, places.down, env, state, s7);
    let s8 = arrange_quadrant_spec(quadrants.down, None, places.down, env, s7);
    lemma_quadrant(above, quadrants.down_right, None, places.down_right, env, state, s8);
}

proof fn lemma_stack(stack: Stack, parent: SmallestSize, place: RealLocation, env: Env, state: PassState)
    ensures
        keeps_order(all_above(stack.children@), state, arrange_stack_spec(stack, parent, place, env, state)),
    decreases stack, 0int,
{
    let above = all_above(stack.children@);
    let after = arrange_stack_spec(stack, parent, place, env, state);
    match after {
        Err(_) => {
            lemma_still(above, state, after);
        },
        Ok(_) => {
            let this = crate::arrange::this_spec(Node::Stack(stack), stack.location, parent, place, env, state)->Ok_0;
            let frame = crate::measure::frame_spec(stack.location, parent, env.screen)->Ok_0;
            lemma_children(
                stack.children@,
                Some(frame.inner),
                crate::arrange::stack_places_spec(stack.children@, this),
                env,
                state.enter_spec(),
                stack.children@.len() as int,
            );
            lemma_enter(above, state, after);
        },
    }
}

proof fn lemma_row(row: Row, parent: SmallestSize, place: RealLocation, env: Env, state: PassState)
    ensures
        keeps_order(all_above(row.children@), state, arrange_row_spec(row, parent, place, env, state)),
    decreases row, 0int,
{
    let above = all_above(row.children@);
    let after = arrange_row_spec(row, parent, place, env, state);
    match after {
        Err(_) => {
            lemma_still(above, state, after);
        },
        Ok(_) => {
            let this = crate::arrange::this_spec(Node::Row(row), row.location, parent, place, env, state)->Ok_0;
            let frame = crate::measure::frame_spec(row.location, parent, env.screen)->Ok_0;
            let child_parent = crate::flex::Axis::Horizontal.child_parent_spec(frame.inner);
            let places = crate::arrange::flex_places_spec(crate::flex::Axis::Horizontal, row.children@, child_parent, this, env.screen)->Ok_0;
            lemma_children(row.children@, Some(child_parent), places, env, state.enter_spec(), row.children@.len() as int);
            lemma_enter(above, state, after);
        },
    }
}

proof fn lemma_column(column: Column, parent: SmallestSize, place: RealLocation, env: Env, state: PassState)
    ensures
        keeps_order(all_above(column.children@), state, arrange_column_spec(column, parent, place, env, state)),
    decreases column, 0int,
{
    let above = all_above(column.children@);
    let after = arrange_column_spec(column, parent, place, env, state);
    match after {
        Err(_) => {
            lemma_still(above, state, after);
        },
        Ok(_) => {
            let this = crate::arrange::this_spec(Node::Column(column), column.location, parent, place, env, state)->Ok_0;
            let frame = crate::measure::frame_spec(column.location, parent, env.screen)->Ok_0;
            let child_parent = crate::flex::Axis::Vertical.child_parent_spec(frame.inner);
            let places = crate::arrange::flex_places_spec(crate::flex::Axis::Vertical, column.children@, child_parent, this, env.screen)->Ok_0;
            lemma_children(column.children@, Some(child_parent), places, env, state.enter_spec(), column.children@.len() as int);
            lemma_enter(above, state, after);
        },
    }
}

proof fn lemma_wrap(wrap: Wrap, parent: SmallestSize, place: RealLocation, env: Env, state: PassState)
    ensures
        keeps_order(all_above(wrap.children@), state, arrange_wrap_spec(wrap, parent, place, env, state)),
    decreases wrap, 0int,
{
    let above = all_above(wrap.children@);
    let after = arrange_wrap_spec(wrap, parent, place, env, state);
    match after {
        Err(_) => {
            lemma_still(above, state, after);
        },
        Ok(_) => {
            let this = crate::arrange::this_spec(Node::Wrap(wrap), wrap.location, parent, place, env, state)->Ok_0;
            let frame = crate::measure::frame_spec(wrap.location, parent, env.screen)->Ok_0;
            let bound = frame.inner.width.screen_spec()->Ok_0;
            let places = crate::arrange::wrap_places_spec(wrap.children@, bound, this, env.screen)->Ok_0;
            lemma_children(wrap.children@, Some(crate::measure::shrunk_spec()), places, env, state.enter_spec(), wrap.children@.len() as int);
            lemma_enter(above, state, after);
        },
    }
}

proof fn lemma_grid(grid: Grid, parent: SmallestSize, place: RealLocation, env: Env, state: PassState)
    ensures
        keeps_order(all_above(grid.children@), state, arrange_grid_spec(grid, parent, place, env, state)),
    decreases grid, 0int,
{
    let above = all_above(grid.children@);
    let after = arrange_grid_spec(grid, parent, place, env, state);
    match after {
        Err(_) => {
            lemma_still(above, state, after);
        },
        Ok(_) => {
            let this = crate::arrange::this_spec(Node::Grid(grid), grid.location, parent, place, env, state)->Ok_0;
            let cell = crate::arrange::grid_cell_at_spec(grid, parent, this, env.screen)->Ok_0;
            lemma_children(
                grid.children@,
                None,
                crate::arrange::grid_places_spec(grid.children@, cell, this),
                env,
                state.enter_spec(),
                grid.children@.len() as int,
            );
            lemma_enter(above, state, after);
        },
    }
}

/// Whether the nine children of a border grid, if it has them, are drawn
/// above everything before them.
pub open spec fn border_above(grid: BorderGrid) -> bool {
    match grid.quadrants {
        None => true,
        Some(q) => quadrants_above(*q),
    }
}

proof fn lemma_border_grid(grid: BorderGrid, parent: SmallestSize, place: RealLocation, env: Env, state: PassState)
    ensures
        keeps_order(border_above(grid), state, arrange_border_grid_spec(grid, parent, place, env, state)),
    decreases grid, 0int,
{
    let above = border_above(grid);
    let after = arrange_border_grid_spec(grid, parent, place, env, state);
    let found = crate::arrange::border_places_spec(grid, parent, place, env, state);
    if found is Ok && grid.quadrants is Some {
        lemma_quadrants(
            *grid.quadrants->Some_0,
            crate::arrange::border_center_parent_spec(grid, parent, found->Ok_0, env.screen),
            found->Ok_0,
            env,
            state.enter_spec(),
        );
        lemma_enter(above, state, after);
    } else {
        lemma_still(above, state, after);
    }
}

proof fn lemma_node(node: Node, parent: SmallestSize, place: RealLocation, env: Env, state: PassState)
    ensures
        keeps_order(above_only(node), state, arrange_spec(node, parent, place, env, state)),
    decreases node, 0int,
{
    let above = above_only(node);
    let after = arrange_spec(node, parent, place, env, state);
    match node {
        Node::Sprite(sprite) => {
            lemma_sprite(sprite, place, env, state);
        },
        Node::BitmapText(text) => {
            lemma_text(text, parent, place, env, state);
        },
        Node::Stack(stack) => {
            lemma_stack(stack, parent, place, env, state);
            lemma_part(all_above(stack.children@), above, state, after);
        },
        Node::Row(row) => {
            lemma_row(row, parent, place, env, state);
            lemma_part(all_above(row.children@), above, state, after);
        },
        Node::Column(column) => {
            lemma_column(column, parent, place, env, state);
            lemma_part(all_above(column.children@), above, state, after);
        },
        Node::Wrap(wrap) => {
            lemma_wrap(wrap, parent, place, env, state);
            lemma_part(all_above(wrap.children@), above, state, after);
        },
        Node::Grid(grid) => {
            lemma_grid(grid, parent, place, env, state);
            lemma_part(all_above(grid.children@), above, state, after);
        },
        Node::BorderGrid(grid) => {
            lemma_border_grid(grid, parent, place, env, state);
            lemma_part(border_above(grid), above, state, after);
        },
        Node::Optional(child) => match child {
            Some(inner) => {
                lemma_node(*inner, parent, place, env, state.enter_spec());
                lemma_enter(above, state, after);
            },
            None => {
                lemma_still(above, state.enter_spec(), after);
                lemma_enter(above, state, after);
            },
        },
    }
}

/// Order monotonicity: in a tree whose every node is drawn above
/// everything before it, each leaf that a layout pass draws has a higher
/// order than every leaf that the pass drew before it. Only where the
/// orders have run into the largest number that there is, a leaf stays at
/// that number; no leaf has a higher order than the highest that the pass
/// records.
pub proof fn lemma_order_monotonic(node: Node, place: RealLocation, env: Env, i: int, j: int)
    requires
        above_only(node),
        layout_spec(node, place, env, PassState::start_spec()) is Ok,
        0 <= i < j < layout_spec(node, place, env, PassState::start_spec())->Ok_0.rendered.len(),
    ensures
        ({
            let after = layout_spec(node, place, env, PassState::start_spec())->Ok_0;
            &&& after.rendered[i].order < after.rendered[j].order || after.rendered[j].order == i64::MAX
            &&& after.rendered[j].order <= after.max_order
        }),
{
    lemma_child(node, None, place, env, PassState::start_spec());
    reveal(keeps_order);
}

/// Only leaves raise the highest order: after a layout pass it is the one
/// that the pass began with, or the order of a leaf that was drawn.
pub proof fn lemma_highest_order(node: Node, place: RealLocation, env: Env)
    requires
        layout_spec(node, place, env, PassState::start_spec()) is Ok,
    ensures
        ({
            let after = layout_spec(node, place, env, PassState::start_spec())->Ok_0;
            ||| after.max_order == PassState::start_spec().max_order
            ||| exists|k: int| 0 <= k < after.rendered.len() && (#[trigger] after.rendered[k]).order == after.max_order
        }),
{
    lemma_child(node, None, place, env, PassState::start_spec());
    reveal(keeps_order);
}

/// No leaf is drawn with an order below one, and the highest order of a
/// pass is at least one.
pub proof fn lemma_order_at_least_one(node: Node, place: RealLocation, env: Env, i: int)
    requires
        layout_spec(node, place, env, PassState::start_spec()) is Ok,
        0 <= i < layout_spec(node, place, env, PassState::start_spec())->Ok_0.rendered.len(),
    ensures
        layout_spec(node, place, env, PassState::start_spec())->Ok_0.rendered[i].order >= crate::number::UNIT,
        layout_spec(node, place, env, PassState::start_spec())->Ok_0.max_order >= crate::number::UNIT,
{
    lemma_child(node, None, place, env, PassState::start_spec());
    reveal(keeps_order);
}

} // verus!
