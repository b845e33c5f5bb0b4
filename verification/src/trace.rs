//! How the leaves that a layout pass remembers are found again: each is
//! remembered by the number of nodes that the pass had visited before it,
//! and the same count leads back to it.

use vstd::prelude::*;
use crate::arrange::{
    Env, PassState, Rendered, arrange_border_grid_spec, arrange_child_spec, arrange_children_spec,
    arrange_column_spec, arrange_grid_spec, arrange_quadrant_spec, arrange_quadrants_spec, arrange_row_spec,
    arrange_spec, arrange_sprite_spec, arrange_stack_spec, arrange_text_spec, arrange_wrap_spec,
    border_center_parent_spec, border_places_spec, flex_places_spec, grid_cell_at_spec, grid_places_spec,
    layout_spec, sprite_instance_spec, stack_places_spec, this_spec, unmeasurable_spec, wrap_places_spec,
};
use crate::border_grid::Places;
use crate::flex::Axis;
use crate::location::ScreenSize;
use crate::measure::{child_sizes_spec, frame_spec, shrunk_spec};
use crate::measured::real_sizes_spec;
use crate::node::{BorderGrid, Column, Grid, Quadrants, Row, Stack, Wrap};
use crate::scene::{refreshed_spec, render_spec};
use crate::bitmap_text::BitmapText;
use crate::error::LayoutError;
use crate::node::{Node, find_among_spec, find_next_spec, find_spec};
use crate::sprite::{Sprite, SpriteInstance};
use crate::units::{RealLocation, SmallestSize};

verus! {

/// Whether `record` is what a pass remembers of `sprite`: the sprite is
/// not fully transparent, and what is drawn for it is what the sprite asks
/// for in the place that is remembered.
pub open spec fn drawn_by(sprite: Sprite, record: Rendered, env: Env, sprites: Seq<SpriteInstance>) -> bool {
    &&& sprite.alpha != 0
    &&& match record.instance {
        None => true,
        Some(index) => {
            let instance = sprite.instance_spec(record.parent, record.smallest, env.screen, record.max_order);
            &&& index < sprites.len()
            &&& instance is Ok
            &&& sprite_instance_spec(sprite, instance->Ok_0, env) == Ok::<Option<SpriteInstance>, LayoutError>(Some(sprites[index as int]))
        },
    }
}

/// Whether `long` begins with `short`.
pub open spec fn begins_with<T>(long: Seq<T>, short: Seq<T>) -> bool {
    &&& short.len() <= long.len()
    &&& forall|i: int| 0 <= i < short.len() ==> long[i] == short[i]
}

/// Whether neither the count of visited nodes nor the number of sprites has
/// run into the limit of the numbers.
pub open spec fn within_limits(state: PassState) -> bool {
    state.visited < u64::MAX && state.sprites.len() <= usize::MAX
}

/// Whether a step of a pass can be traced with `find`, which says what is
/// found after a count of nodes from where the step began: the step only
/// adds to what is remembered and drawn; and unless a count ran into the
/// limit of the numbers, `find` is through after as many
/// nodes as the step visited, each leaf that the step remembers was visited
/// in the step, and each sprite among them is found at its count.
#[verifier::opaque]
pub open spec fn traced(find: spec_fn(u64) -> Result<Node, u64>, env: Env, before: PassState, after: Result<PassState, LayoutError>) -> bool {
    match after {
        Err(_) => true,
        Ok(state) => {
            &&& before.visited <= state.visited
            &&& begins_with(state.rendered, before.rendered)
            &&& begins_with(state.sprites, before.sprites)
            &&& within_limits(state) ==> {
                &&& forall|k: u64| k >= state.visited - before.visited
                    ==> #[trigger] find(k) == Err::<Node, u64>((k - (state.visited - before.visited)) as u64)
                &&& forall|i: int| before.rendered.len() <= i < state.rendered.len() ==> {
                    &&& before.visited <= (#[trigger] state.rendered[i]).node < state.visited
                    &&& state.rendered[i].kind is Sprite ==> {
                        let found = find((state.rendered[i].node - before.visited) as u64);
                        &&& found is Ok
                        &&& found->Ok_0 is Sprite
                        &&& drawn_by(found->Ok_0->Sprite_0, state.rendered[i], env, state.sprites)
                    }
                }
            }
        },
    }
}

/// A step that failed can be traced with anything.
proof fn lemma_failed(find: spec_fn(u64) -> Result<Node, u64>, env: Env, before: PassState, after: Result<PassState, LayoutError>)
    requires
        after is Err,
    ensures
        traced(find, env, before, after),
{
    reveal(traced);
}

/// A step that did nothing can be traced with what finds nothing.
proof fn lemma_nothing(find: spec_fn(u64) -> Result<Node, u64>, env: Env, before: PassState)
    requires
        forall|k: u64| #[trigger] find(k) == Err::<Node, u64>(k),
    ensures
        traced(find, env, before, Ok(before)),
{
    reveal(traced);
}

/// What can be traced with one way to find can be traced with any that
/// finds the same.
proof fn lemma_same(f: spec_fn(u64) -> Result<Node, u64>, g: spec_fn(u64) -> Result<Node, u64>, env: Env, before: PassState, after: Result<PassState, LayoutError>)
    requires
        traced(f, env, before, after),
        forall|k: u64| #[trigger] g(k) == f(k),
    ensures
        traced(g, env, before, after),
{
    reveal(traced);
}

/// A sprite is found where the pass came to it.
proof fn lemma_sprite(sprite: Sprite, place: RealLocation, env: Env, state: PassState)
    ensures
        traced(|k: u64| find_spec(Node::Sprite(sprite), k), env, state, arrange_sprite_spec(sprite, place, env, state)),
{
    reveal(traced);
    reveal(arrange_sprite_spec);
    let find = |k: u64| find_spec(Node::Sprite(sprite), k);
    match arrange_sprite_spec(sprite, place, env, state) {
        Err(_) => {},
        Ok(after) => {
            if within_limits(after) {
                assert(find(0) == Ok::<Node, u64>(Node::Sprite(sprite)));
            }
        },
    }
}

/// A text counts as one node.
proof fn lemma_text(text: BitmapText, parent: SmallestSize, place: RealLocation, env: Env, state: PassState)
    ensures
        traced(|k: u64| find_spec(Node::BitmapText(text), k), env, state, arrange_text_spec(text, parent, place, env, state)),
{
    reveal(traced);
    reveal(arrange_text_spec);
}

/// A step, and after it the step of one more child, can be traced by
/// looking in the child for what the first step does not find.
proof fn lemma_next(
    find: spec_fn(u64) -> Result<Node, u64>,
    child: Node,
    env: Env,
    start: PassState,
    middle: Result<PassState, LayoutError>,
    after: Result<PassState, LayoutError>,
)
    requires
        traced(find, env, start, middle),
        match middle {
            Err(_) => after is Err,
            Ok(state) => if child.is_visible_spec() {
                traced(|k: u64| find_spec(child, k), env, state, after)
            } else {
                after == Ok::<PassState, LayoutError>(state)
            },
        },
    ensures
        traced(|k: u64| find_next_spec(child, find(k)), env, start, after),
{
    reveal(traced);
    let next = |k: u64| find_next_spec(child, find(k));
    let inner = |k: u64| find_spec(child, k);
    match middle {
        Err(_) => {},
        Ok(mid) => match after {
            Err(_) => {},
            Ok(end) => {
                if within_limits(end) {
                    let first = mid.visited - start.visited;
                    let second = end.visited - mid.visited;
                    assert forall|k: u64| k >= end.visited - start.visited implies #[trigger] next(k) == Err::<Node, u64>(
                        (k - (end.visited - start.visited)) as u64,
                    ) by {
                        assert(find(k) == Err::<Node, u64>((k - first) as u64));
                        if child.is_visible_spec() {
                            assert(inner((k - first) as u64) == Err::<Node, u64>((k - first - second) as u64));
                        }
                    }
                    assert forall|i: int| start.rendered.len() <= i < end.rendered.len() implies {
                        &&& start.visited <= (#[trigger] end.rendered[i]).node < end.visited
                        &&& end.rendered[i].kind is Sprite ==> {
                            let found = next((end.rendered[i].node - start.visited) as u64);
                            &&& found is Ok
                            &&& found->Ok_0 is Sprite
                            &&& drawn_by(found->Ok_0->Sprite_0, end.rendered[i], env, end.sprites)
                        }
                    } by {
                        let record = end.rendered[i];
                        if i < mid.rendered.len() {
                            assert(record == mid.rendered[i]);
                            if record.kind is Sprite {
                                let found = find((record.node - start.visited) as u64);
                                assert(found is Ok);
                                assert(next((record.node - start.visited) as u64) == found);
                            }
                        } else {
                            assert(child.is_visible_spec());
                            if record.kind is Sprite {
                                let k = (record.node - start.visited) as u64;
                                assert(find(k) == Err::<Node, u64>((k - first) as u64));
                                assert(next(k) == inner((record.node - mid.visited) as u64));
                            }
                        }
                    }
                }
            },
        },
    }
}

/// The step of a node that counts itself and then does `after` can be
/// traced by counting one node and then looking where `rest` looks.
proof fn lemma_entered(
    node: Node,
    find: spec_fn(u64) -> Result<Node, u64>,
    rest: spec_fn(u64) -> Result<Node, u64>,
    env: Env,
    state: PassState,
    after: Result<PassState, LayoutError>,
)
    requires
        traced(rest, env, state.enter_spec(), after),
        forall|k: u64| k >= 1 ==> #[trigger] find(k) == rest((k - 1) as u64),
    ensures
        traced(find, env, state, after),
{
    reveal(traced);
    match after {
        Err(_) => {},
        Ok(end) => {
            if within_limits(end) {
                assert forall|k: u64| k >= end.visited - state.visited implies #[trigger] find(k) == Err::<Node, u64>(
                    (k - (end.visited - state.visited)) as u64,
                ) by {
                    assert(find(k) == rest((k - 1) as u64));
                }
                assert forall|i: int| state.rendered.len() <= i < end.rendered.len() implies {
                    &&& state.visited <= (#[trigger] end.rendered[i]).node < end.visited
                    &&& end.rendered[i].kind is Sprite ==> {
                        let found = find((end.rendered[i].node - state.visited) as u64);
                        &&& found is Ok
                        &&& found->Ok_0 is Sprite
                        &&& drawn_by(found->Ok_0->Sprite_0, end.rendered[i], env, end.sprites)
                    }
                } by {
                    let record = end.rendered[i];
                    let k = (record.node - state.visited) as u64;
                    assert(find(k) == rest((k - 1) as u64));
                }
            }
        },
    }
}

/// The sizes of some children are as many as the children, and those of
/// the invisible children are missing.
proof fn lemma_sizes_shape(children: Seq<Node>, parent: SmallestSize, screen: ScreenSize, n: int)
    requires
        0 <= n <= children.len(),
        child_sizes_spec(children, parent, screen, n) is Ok,
    ensures
        child_sizes_spec(children, parent, screen, n)->Ok_0.len() == n,
        forall|i: int| 0 <= i < n ==> ((#[trigger] child_sizes_spec(children, parent, screen, n)->Ok_0[i]) is None
            <==> !children[i].is_visible_spec()),
    decreases n,
{
    if n > 0 {
        lemma_sizes_shape(children, parent, screen, n - 1);
    }
}

/// The sizes on the screen are as many as the sizes, and missing where
/// those are.
proof fn lemma_reals_shape(list: Seq<Option<SmallestSize>>, n: int)
    requires
        0 <= n <= list.len(),
        real_sizes_spec(list, n) is Ok,
    ensures
        real_sizes_spec(list, n)->Ok_0.len() == n,
        forall|i: int| 0 <= i < n ==> ((#[trigger] real_sizes_spec(list, n)->Ok_0[i]) is None <==> list[i] is None),
    decreases n,
{
    if n > 0 {
        lemma_reals_shape(list, n - 1);
    }
}

/// Whether each child has a place unless it is invisible.
pub open spec fn placed(children: Seq<Node>, places: Seq<Option<RealLocation>>) -> bool {
    &&& places.len() == children.len()
    &&& forall|i: int| 0 <= i < children.len() ==> ((#[trigger] places[i]) is None ==> !children[i].is_visible_spec())
}

proof fn lemma_children(children: Seq<Node>, parent: Option<SmallestSize>, places: Seq<Option<RealLocation>>, env: Env, state: PassState, n: int)
    requires
        placed(children, places),
    ensures
        traced(|k: u64| find_among_spec(children, k, n), env, state, arrange_children_spec(children, parent, places, env, state, n)),
    decreases children, n,
{
    let find = |k: u64| find_among_spec(children, k, n);
    let after = arrange_children_spec(children, parent, places, env, state, n);
    if n <= 0 || n > children.len() {
        lemma_nothing(find, env, state);
    } else {
        let child = children[n - 1];
        let before = |k: u64| find_among_spec(children, k, n - 1);
        let middle = arrange_children_spec(children, parent, places, env, state, n - 1);
        lemma_children(children, parent, places, env, state, n - 1);
        match middle {
            Err(_) => {},
            Ok(mid) => match places[n - 1] {
                None => {},
                Some(place) => {
                    lemma_child(child, parent, place, env, mid);
                },
            },
        }
        lemma_next(before, child, env, state, middle, after);
        lemma_same(|k: u64| find_next_spec(child, before(k)), find, env, state, after);
    }
}

proof fn lemma_child(child: Node, parent: Option<SmallestSize>, place: RealLocation, env: Env, state: PassState)
    ensures
        if child.is_visible_spec() {
            traced(|k: u64| find_spec(child, k), env, state, arrange_child_spec(child, parent, place, env, state))
        } else {
            arrange_child_spec(child, parent, place, env, state) == Ok::<PassState, LayoutError>(state)
        },
    decreases child, 1int,
{
    let find = |k: u64| find_spec(child, k);
    if child.is_visible_spec() {
        match parent {
            Some(measured_parent) => {
                lemma_node(child, measured_parent, place, env, state);
            },
            None => {
                if unmeasurable_spec(child, place.size.smallest_size_spec(), env.screen) is Some {
                    lemma_failed(find, env, state, arrange_child_spec(child, parent, place, env, state));
                } else {
                    lemma_node(child, place.size.smallest_size_spec(), place, env, state);
                }
            },
        }
    }
}

proof fn lemma_quadrant(
    find: spec_fn(u64) -> Result<Node, u64>,
    child: Node,
    parent: Option<SmallestSize>,
    place: RealLocation,
    env: Env,
    start: PassState,
    middle: Result<PassState, LayoutError>,
)
    requires
        traced(find, env, start, middle),
    ensures
        traced(|k: u64| find_next_spec(child, find(k)), env, start, arrange_quadrant_spec(child, parent, place, env, middle)),
    decreases child, 2int,
{
    let after = arrange_quadrant_spec(child, parent, place, env, middle);
    match middle {
        Err(_) => {},
        Ok(mid) => {
            lemma_child(child, parent, place, env, mid);
        },
    }
    lemma_next(find, child, env, start, middle, after);
}

/// What is found among the nine children of a border grid after a count
/// of nodes.
pub open spec fn find_quadrants_spec(q: Quadrants, rest: u64) -> Result<Node, u64> {
    let s1 = find_next_spec(q.up_left, Err(rest));
    let s2 = find_next_spec(q.up, s1);
    let s3 = find_next_spec(q.up_right, s2);
    let s4 = find_next_spec(q.left, s3);
    let s5 = find_next_spec(q.center, s4);
    let s6 = find_next_spec(q.right, s5);
    let s7 = find_next_spec(q.down_left, s6);
    let s8 = find_next_spec(q.down, s7);
    find_next_spec(q.down_right, s8)
}

proof fn lemma_quadrants(quadrants: Quadrants, center_parent: Option<SmallestSize>, places: Places, env: Env, state: PassState)
    ensures
        traced(|k: u64| find_quadrants_spec(quadrants, k), env, state, arrange_quadrants_spec(quadrants, center_parent, places, env, state)),
    decreases quadrants, 0int,
{
    let f0 = |k: u64| Err::<Node, u64>(k);
    let s0 = Ok::<PassState, LayoutError>(state);
    lemma_nothing(f0, env, state);
    lemma_quadrant(f0, quadrants.up_left, None, places.up_left, env, state, s0);
    let f1 = |k: u64| find_next_spec(quadrants.up_left, f0(k));
    let s1 = arrange_quadrant_spec(quadrants.up_left, None, places.up_left, env, s0);
    lemma_quadrant(f1, quadrants.up, None, places.up, env, state, s1);
    let f2 = |k: u64| find_next_spec(quadrants.up, f1(k));
    let s2 = arrange_quadrant_spec(quadrants.up, None, places.up, env, s1);
    lemma_quadrant(f2, quadrants.up_right, None, places.up_right, env, state, s2);
    let f3 = |k: u64| find_next_spec(quadrants.up_right, f2(k));
    let s3 = arrange_quadrant_spec(quadrants.up_right, None, places.up_right, env, s2);
    lemma_quadrant(f3, quadrants.left, None, places.left, env, state, s3);
    let f4 = |k: u64| find_next_spec(quadrants.left, f3(k));
    let s4 = arrange_quadrant_spec(quadrants.left, None, places.left, env, s3);
    lemma_quadrant(f4, quadrants.center, center_parent, places.center, env, state, s4);
    let f5 = |k: u64| find_next_spec(quadrants.center, f4(k));
    let s5 = arrange_quadrant_spec(quadrants.center, center_parent, places.center, env, s4);
    lemma_quadrant(f5, quadrants.right, None, places.right, env, state, s5);
    let f6 = |k: u64| find_next_spec(quadrants.right, f5(k));
    let s6 = arrange_quadrant_spec(quadrants.right, None, places.right, env, s5);
    lemma_quadrant(f6, quadrants.down_left, None, places.down_left, env, state, s6);
    let f7 = |k: u64| find_next_spec(quadrants.down_left, f6(k));
    let s7 = arrange_quadrant_spec(quadrants.down_left, None, places.down_left, env, s6);
    lemma_quadrant(f7, quadrants.down, None, places.down, env, state, s7);
    let f8 = |k: u64| find_next_spec(quadrants.down, f7(k));
    let s8 = arrange_quadrant_spec(quadrants.down, None, places.down, env, s7);
    lemma_quadrant(f8, quadrants.down_right, None, places.down_right, env, state, s8);
    let f9 = |k: u64| find_next_spec(quadrants.down_right, f8(k));
    lemma_same(f9, |k: u64| find_quadrants_spec(quadrants, k), env, state, arrange_quadrants_spec(quadrants, center_parent, places, env, state));
}

proof fn lemma_stack(stack: Stack, parent: SmallestSize, place: RealLocation, env: Env, state: PassState)
    ensures
        traced(|k: u64| find_spec(Node::Stack(stack), k), env, state, arrange_stack_spec(stack, parent, place, env, state)),
    decreases stack, 0int,
{
    let node = Node::Stack(stack);
    let find = |k: u64| find_spec(node, k);
    let after = arrange_stack_spec(stack, parent, place, env, state);
    let n = stack.children@.len() as int;
    match after {
        Err(_) => {
            lemma_failed(find, env, state, after);
        },
        Ok(_) => {
            reveal(stack_places_spec);
            let this = this_spec(node, stack.location, parent, place, env, state)->Ok_0;
            let frame = frame_spec(stack.location, parent, env.screen)->Ok_0;
            let places = stack_places_spec(stack.children@, this);
            lemma_children(stack.children@, Some(frame.inner), places, env, state.enter_spec(), n);
            lemma_entered(node, find, |k: u64| find_among_spec(stack.children@, k, n), env, state, after);
        },
    }
}

proof fn lemma_flex(axis: Axis, node: Node, children: Seq<Node>, child_parent: SmallestSize, this: RealLocation, env: Env, state: PassState)
    requires
        flex_places_spec(axis, children, child_parent, this, env.screen) is Ok,
    ensures
        placed(children, flex_places_spec(axis, children, child_parent, this, env.screen)->Ok_0),
{
    reveal(flex_places_spec);
    lemma_sizes_shape(children, child_parent, env.screen, children.len() as int);
}

proof fn lemma_row(row: Row, parent: SmallestSize, place: RealLocation, env: Env, state: PassState)
    ensures
        traced(|k: u64| find_spec(Node::Row(row), k), env, state, arrange_row_spec(row, parent, place, env, state)),
    decreases row, 0int,
{
    let node = Node::Row(row);
    let find = |k: u64| find_spec(node, k);
    let after = arrange_row_spec(row, parent, place, env, state);
    let n = row.children@.len() as int;
    match after {
        Err(_) => {
            lemma_failed(find, env, state, after);
        },
        Ok(_) => {
            let this = this_spec(node, row.location, parent, place, env, state)->Ok_0;
            let frame = frame_spec(row.location, parent, env.screen)->Ok_0;
            let child_parent = Axis::Horizontal.child_parent_spec(frame.inner);
            lemma_flex(Axis::Horizontal, node, row.children@, child_parent, this, env, state);
            let places = flex_places_spec(Axis::Horizontal, row.children@, child_parent, this, env.screen)->Ok_0;
            lemma_children(row.children@, Some(child_parent), places, env, state.enter_spec(), n);
            lemma_entered(node, find, |k: u64| find_among_spec(row.children@, k, n), env, state, after);
        },
    }
}

proof fn lemma_column(column: Column, parent: SmallestSize, place: RealLocation, env: Env, state: PassState)
    ensures
        traced(|k: u64| find_spec(Node::Column(column), k), env, state, arrange_column_spec(column, parent, place, env, state)),
    decreases column, 0int,
{
    let node = Node::Column(column);
    let find = |k: u64| find_spec(node, k);
    let after = arrange_column_spec(column, parent, place, env, state);
    let n = column.children@.len() as int;
    match after {
        Err(_) => {
            lemma_failed(find, env, state, after);
        },
        Ok(_) => {
            let this = this_spec(node, column.location, parent, place, env, state)->Ok_0;
            let frame = frame_spec(column.location, parent, env.screen)->Ok_0;
            let child_parent = Axis::Vertical.child_parent_spec(frame.inner);
            lemma_flex(Axis::Vertical, node, column.children@, child_parent, this, env, state);
            let places = flex_places_spec(Axis::Vertical, column.children@, child_parent, this, env.screen)->Ok_0;
            lemma_children(column.children@, Some(child_parent), places, env, state.enter_spec(), n);
            lemma_entered(node, find, |k: u64| find_among_spec(column.children@, k, n), env, state, after);
        },
    }
}

proof fn lemma_packed(children: Seq<Node>, bound: i64, this: RealLocation, screen: ScreenSize)
    requires
        wrap_places_spec(children, bound, this, screen) is Ok,
    ensures
        placed(children, wrap_places_spec(children, bound, this, screen)->Ok_0),
{
    reveal(wrap_places_spec);
    lemma_sizes_shape(children, shrunk_spec(), screen, children.len() as int);
    let list = child_sizes_spec(children, shrunk_spec(), screen, children.len() as int)->Ok_0;
    lemma_reals_shape(list, list.len() as int);
}

proof fn lemma_wrap(wrap: Wrap, parent: SmallestSize, place: RealLocation, env: Env, state: PassState)
    ensures
        traced(|k: u64| find_spec(Node::Wrap(wrap), k), env, state, arrange_wrap_spec(wrap, parent, place, env, state)),
    decreases wrap, 0int,
{
    let node = Node::Wrap(wrap);
    let find = |k: u64| find_spec(node, k);
    let after = arrange_wrap_spec(wrap, parent, place, env, state);
    let n = wrap.children@.len() as int;
    match after {
        Err(_) => {
            lemma_failed(find, env, state, after);
        },
        Ok(_) => {
            let this = this_spec(node, wrap.location, parent, place, env, state)->Ok_0;
            let frame = frame_spec(wrap.location, parent, env.screen)->Ok_0;
            let bound = frame.inner.width.screen_spec()->Ok_0;
            lemma_packed(wrap.children@, bound, this, env.screen);
            let places = wrap_places_spec(wrap.children@, bound, this, env.screen)->Ok_0;
            lemma_children(wrap.children@, Some(shrunk_spec()), places, env, state.enter_spec(), n);
            lemma_entered(node, find, |k: u64| find_among_spec(wrap.children@, k, n), env, state, after);
        },
    }
}

proof fn lemma_grid(grid: Grid, parent: SmallestSize, place: RealLocation, env: Env, state: PassState)
    ensures
        traced(|k: u64| find_spec(Node::Grid(grid), k), env, state, arrange_grid_spec(grid, parent, place, env, state)),
    decreases grid, 0int,
{
    let node = Node::Grid(grid);
    let find = |k: u64| find_spec(node, k);
    let after = arrange_grid_spec(grid, parent, place, env, state);
    let n = grid.children@.len() as int;
    match after {
        Err(_) => {
            lemma_failed(find, env, state, after);
        },
        Ok(_) => {
            reveal(grid_places_spec);
            let this = this_spec(node, grid.location, parent, place, env, state)->Ok_0;
            let cell = grid_cell_at_spec(grid, parent, this, env.screen)->Ok_0;
            let places = grid_places_spec(grid.children@, cell, this);
            lemma_children(grid.children@, None, places, env, state.enter_spec(), n);
            lemma_entered(node, find, |k: u64| find_among_spec(grid.children@, k, n), env, state, after);
        },
    }
}

proof fn lemma_border_grid(grid: BorderGrid, parent: SmallestSize, place: RealLocation, env: Env, state: PassState)
    ensures
        traced(|k: u64| find_spec(Node::BorderGrid(grid), k), env, state, arrange_border_grid_spec(grid, parent, place, env, state)),
    decreases grid, 0int,
{
    let node = Node::BorderGrid(grid);
    let find = |k: u64| find_spec(node, k);
    let after = arrange_border_grid_spec(grid, parent, place, env, state);
    let found = border_places_spec(grid, parent, place, env, state);
    if found is Ok && grid.quadrants is Some {
        let quadrants = *grid.quadrants->Some_0;
        lemma_quadrants(quadrants, border_center_parent_spec(grid, parent, found->Ok_0, env.screen), found->Ok_0, env, state.enter_spec());
        lemma_entered(node, find, |k: u64| find_quadrants_spec(quadrants, k), env, state, after);
    } else {
        lemma_failed(find, env, state, after);
    }
}

proof fn lemma_node(node: Node, parent: SmallestSize, place: RealLocation, env: Env, state: PassState)
    ensures
        traced(|k: u64| find_spec(node, k), env, state, arrange_spec(node, parent, place, env, state)),
    decreases node, 0int,
{
    let find = |k: u64| find_spec(node, k);
    let after = arrange_spec(node, parent, place, env, state);
    match node {
        Node::Sprite(sprite) => {
            lemma_sprite(sprite, place, env, state);
        },
        Node::BitmapText(text) => {
            lemma_text(text, parent, place, env, state);
        },
        Node::Stack(stack) => {
            lemma_stack(stack, parent, place, env, state);
        },
        Node::Row(row) => {
            lemma_row(row, parent, place, env, state);
        },
        Node::Column(column) => {
            lemma_column(column, parent, place, env, state);
        },
        Node::Wrap(wrap) => {
            lemma_wrap(wrap, parent, place, env, state);
        },
        Node::Grid(grid) => {
            lemma_grid(grid, parent, place, env, state);
        },
        Node::BorderGrid(grid) => {
            lemma_border_grid(grid, parent, place, env, state);
        },
        Node::Optional(child) => match child {
            Some(inner) => {
                lemma_node(*inner, parent, place, env, state.enter_spec());
                lemma_entered(node, find, |k: u64| find_spec(*inner, k), env, state, after);
            },
            None => {
                let nothing = |k: u64| Err::<Node, u64>(k);
                lemma_nothing(nothing, env, state.enter_spec());
                lemma_entered(node, find, nothing, env, state, after);
            },
        },
    }
}

/// Drawing again what has not changed changes nothing: right after a layout
/// pass every leaf that the pass remembers is found again by its count, and
/// a render pass over the same scene leaves the sprites as they are.
pub proof fn lemma_render_after_layout(root: Node, place: RealLocation, env: Env, n: int)
    requires
        layout_spec(root, place, env, PassState::start_spec()) is Ok,
        within_limits(layout_spec(root, place, env, PassState::start_spec())->Ok_0),
        0 <= n <= layout_spec(root, place, env, PassState::start_spec())->Ok_0.rendered.len(),
    ensures
        ({
            let state = layout_spec(root, place, env, PassState::start_spec())->Ok_0;
            render_spec(root, env, state.rendered, state.sprites, n) == Ok::<Seq<SpriteInstance>, LayoutError>(state.sprites)
        }),
    decreases n,
{
    let start = PassState::start_spec();
    let state = layout_spec(root, place, env, start)->Ok_0;
    if n > 0 {
        lemma_render_after_layout(root, place, env, n - 1);
        lemma_child(root, None, place, env, start);
        reveal(traced);
        let record = state.rendered[n - 1];
        if record.kind is Sprite {
            let found = find_spec(root, record.node);
            assert(record.node - start.visited == record.node);
            let sprite = found->Ok_0->Sprite_0;
            match record.instance {
                None => {},
                Some(index) => {
                    assert(state.sprites.update(index as int, state.sprites[index as int]) =~= state.sprites);
                },
            }
        }
        assert(refreshed_spec(root, env, record, state.sprites) == Ok::<Seq<SpriteInstance>, LayoutError>(state.sprites));
    }
}

} // verus!
