//! The scene graph: a tree of nodes, each of which is one of a closed set of
//! kinds.

use vstd::prelude::*;
use crate::bitmap_text::BitmapText;
use crate::border_grid::BorderSize;
use crate::grid::GridSize;
use crate::location::Location;
use crate::sprite::Sprite;

verus! {

/// Displays children on top of each other.
///
/// # Layout
///
/// The children are all displayed on the same position as the stack.
///
/// # Sizing
///
/// * [`Length::SmallestWidth`]: the maximum of all the children's smallest width.
///
/// * [`Length::SmallestHeight`]: the maximum of all the children's smallest height.
///
/// [`Length::SmallestWidth`]: crate::location::Length::SmallestWidth
/// [`Length::SmallestHeight`]: crate::location::Length::SmallestHeight
pub struct Stack {
    pub visible: bool,
    pub location: Location,
    pub children: Vec<Node>,
}

/// Displays children in a row from left-to-right.
///
/// # Layout
///
/// Children are shrunk horizontally as much as possible.
///
/// If a child has a width of `Length::ParentWidth` then it is expanded
/// to fill the available empty space of the row.
///
/// If there are multiple children with a width of `Length::ParentWidth`
/// then the empty space is distributed to each child.
///
/// The empty space is distributed as a ratio. For example, if one child has
/// `Length::ParentWidth(2 * UNIT)` and another child has
/// `Length::ParentWidth(UNIT)` then the first child will be twice as wide as
/// the second child.
///
/// # Sizing
///
/// * `Length::SmallestHeight`: the maximum of all the children's smallest height.
///
/// * `Length::SmallestWidth`: the sum of all the children's smallest width.
pub struct Row {
    pub visible: bool,
    pub location: Location,
    pub children: Vec<Node>,
}

/// Displays children in a column from up-to-down.
///
/// # Layout
///
/// Children are shrunk vertically as much as possible.
///
/// If a child has a height of `Length::ParentHeight` then it is expanded
/// to fill the available empty space of the column.
///
/// If there are multiple children with a height of `Length::ParentHeight`
/// then the empty space is distributed to each child.
///
/// The empty space is distributed as a ratio. For example, if one child has
/// `Length::ParentHeight(2 * UNIT)` and another child has
/// `Length::ParentHeight(UNIT)` then the first child will be twice as tall as
/// the second child.
///
/// # Sizing
///
/// * `Length::SmallestWidth`: the maximum of all the children's smallest width.
///
/// * `Length::SmallestHeight`: the sum of all the children's smallest height.
pub struct Column {
    pub visible: bool,
    pub location: Location,
    pub children: Vec<Node>,
}

/// Displays children in a row, wrapping to the next row when running out of space.
///
/// # Layout
///
/// Children are shrunk horizontally and vertically as much as possible.
pub struct Wrap {
    pub visible: bool,
    pub location: Location,
    pub children: Vec<Node>,
}

/// Displays children in a grid where every child has the same size.
///
/// When the children overflow horizontally, it moves them to the next vertical row.
///
/// # Sizing
///
/// * `Length::SmallestWidth`: the sum of the width of all the children (laid out on one row).
///
/// * `Length::SmallestHeight`: the sum of the height of all the children (laid out on multiple rows).
pub struct Grid {
    pub visible: bool,
    pub location: Location,
    pub children: Vec<Node>,
    /// The size of each cell, which every grid must have.
    pub grid_size: Option<GridSize>,
}

/// The nine children of a border grid.
pub struct Quadrants {
    pub up_left: Node,
    pub up: Node,
    pub up_right: Node,
    pub left: Node,
    pub center: Node,
    pub right: Node,
    pub down_left: Node,
    pub down: Node,
    pub down_right: Node,
}

/// Displays children in a 3x3 grid where the center quadrant stretches.
pub struct BorderGrid {
    pub visible: bool,
    pub location: Location,
    /// The nine children, which every border grid must have.
    pub quadrants: Option<Box<Quadrants>>,
    /// The thickness of the border, which every border grid must have.
    pub border_size: Option<BorderSize>,
}

/// Node in the scene graph.
pub enum Node {
    Sprite(Sprite),
    Stack(Stack),
    Row(Row),
    Column(Column),
    Wrap(Wrap),
    Grid(Grid),
    BorderGrid(BorderGrid),
    BitmapText(BitmapText),
    /// A child that may be missing. It is as visible as the child is.
    Optional(Option<Box<Node>>),
}

impl Node {
    /// Whether the node takes part in the layout. A node that does not is
    /// treated as if it didn't exist.
    pub open spec fn is_visible_spec(self) -> bool
        decreases self,
    {
        match self {
            Node::Sprite(n) => n.visible,
            Node::Stack(n) => n.visible,
            Node::Row(n) => n.visible,
            Node::Column(n) => n.visible,
            Node::Wrap(n) => n.visible,
            Node::Grid(n) => n.visible,
            Node::BorderGrid(n) => n.visible,
            Node::BitmapText(n) => n.visible,
            Node::Optional(o) => match o {
                Some(child) => child.is_visible_spec(),
                None => false,
            },
        }
    }

    /// Whether the Node is visible or not.
    pub fn is_visible(&self) -> (r: bool)
        ensures
            r == self.is_visible_spec(),
        decreases self,
    {
        match self {
            Node::Sprite(n) => n.visible,
            Node::Stack(n) => n.visible,
            Node::Row(n) => n.visible,
            Node::Column(n) => n.visible,
            Node::Wrap(n) => n.visible,
            Node::Grid(n) => n.visible,
            Node::BorderGrid(n) => n.visible,
            Node::BitmapText(n) => n.visible,
            Node::Optional(o) => match o {
                Some(child) => child.is_visible(),
                None => false,
            },
        }
    }
}

/// How many of the first `n` nodes are visible.
pub open spec fn visible_count_spec(nodes: Seq<Node>, n: int) -> int
    decreases n,
{
    if n <= 0 || n > nodes.len() {
        0
    } else {
        visible_count_spec(nodes, n - 1) + if nodes[n - 1].is_visible_spec() { 1int } else { 0int }
    }
}

/// Counts the visible nodes.
pub fn visible_count(nodes: &Vec<Node>) -> (r: usize)
    ensures
        r == visible_count_spec(nodes@, nodes@.len() as int),
{
    let mut count: usize = 0;
    let mut i: usize = 0;
    while i < nodes.len()
        invariant
            0 <= i <= nodes@.len(),
            count == visible_count_spec(nodes@, i as int),
            count <= i,
        decreases nodes@.len() - i,
    {
        if nodes[i].is_visible() {
            count = count + 1;
        }
        i = i + 1;
    }
    count
}

/// The node that an arrangement pass which starts at `node` comes to after
/// it has visited `ordinal` others, or, if the pass is through with `node`
/// and all below it before that, how many it has yet to visit.
///
/// The pass visits a node, then the node's visible children in order, each
/// with all that is below it.
pub open spec fn find_spec(node: Node, ordinal: u64) -> Result<Node, u64>
    decreases node, 0int,
{
    if ordinal == 0 {
        Ok(node)
    } else {
        let rest = (ordinal - 1) as u64;
        match node {
            Node::Sprite(_) => Err(rest),
            Node::BitmapText(_) => Err(rest),
            Node::Stack(n) => find_among_spec(n.children@, rest, n.children@.len() as int),
            Node::Row(n) => find_among_spec(n.children@, rest, n.children@.len() as int),
            Node::Column(n) => find_among_spec(n.children@, rest, n.children@.len() as int),
            Node::Wrap(n) => find_among_spec(n.children@, rest, n.children@.len() as int),
            Node::Grid(n) => find_among_spec(n.children@, rest, n.children@.len() as int),
            Node::BorderGrid(n) => match n.quadrants {
                None => Err(rest),
                Some(q) => {
                    let s1 = find_next_spec(q.up_left, Err(rest));
                    let s2 = find_next_spec(q.up, s1);
                    let s3 = find_next_spec(q.up_right, s2);
                    let s4 = find_next_spec(q.left, s3);
                    let s5 = find_next_spec(q.center, s4);
                    let s6 = find_next_spec(q.right, s5);
                    let s7 = find_next_spec(q.down_left, s6);
                    let s8 = find_next_spec(q.down, s7);
                    find_next_spec(q.down_right, s8)
                },
            },
            Node::Optional(o) => match o {
                Some(child) => find_spec(*child, rest),
                None => Err(rest),
            },
        }
    }
}

/// The search after one more child: it goes on in the child if the child is
/// visible and nothing was found before.
pub open spec fn find_next_spec(child: Node, before: Result<Node, u64>) -> Result<Node, u64>
    decreases child, 1int,
{
    match before {
        Ok(found) => Ok(found),
        Err(rest) => if child.is_visible_spec() {
            find_spec(child, rest)
        } else {
            Err(rest)
        },
    }
}

/// The search among the first `n` of some children.
pub open spec fn find_among_spec(children: Seq<Node>, ordinal: u64, n: int) -> Result<Node, u64>
    decreases children, n,
{
    if n <= 0 || n > children.len() {
        Err(ordinal)
    } else {
        find_next_spec(children[n - 1], find_among_spec(children, ordinal, n - 1))
    }
}

/// What was found among the first `i` children is found among more of them.
pub proof fn lemma_find_among_stable(children: Seq<Node>, ordinal: u64, i: int, n: int)
    requires
        0 <= i <= n <= children.len(),
        find_among_spec(children, ordinal, i) is Ok,
    ensures
        find_among_spec(children, ordinal, n) == find_among_spec(children, ordinal, i),
    decreases n - i,
{
    if i < n {
        lemma_find_among_stable(children, ordinal, i, n - 1);
        let before = find_among_spec(children, ordinal, n - 1);
        assert(before is Ok);
        assert(find_next_spec(children[n - 1], before) == before);
        assert(find_among_spec(children, ordinal, n) == find_next_spec(children[n - 1], before));
    }
}

fn find_next<'a>(child: &'a Node, before: Result<&'a Node, u64>) -> (r: Result<&'a Node, u64>)
    ensures
        match r {
            Ok(found) => find_next_spec(*child, match before { Ok(n) => Ok(*n), Err(k) => Err(k) }) == Ok::<Node, u64>(*found),
            Err(rest) => find_next_spec(*child, match before { Ok(n) => Ok(*n), Err(k) => Err(k) }) == Err::<Node, u64>(rest),
        },
    decreases *child, 1int,
{
    match before {
        Ok(found) => Ok(found),
        Err(rest) => if child.is_visible() {
            find(child, rest)
        } else {
            Err(rest)
        },
    }
}

fn find_among<'a>(children: &'a Vec<Node>, ordinal: u64) -> (r: Result<&'a Node, u64>)
    ensures
        match r {
            Ok(found) => find_among_spec(children@, ordinal, children@.len() as int) == Ok::<Node, u64>(*found),
            Err(rest) => find_among_spec(children@, ordinal, children@.len() as int) == Err::<Node, u64>(rest),
        },
    decreases *children, 0int,
{
    let mut rest = ordinal;
    let mut i: usize = 0;
    while i < children.len()
        invariant
            0 <= i <= children@.len(),
            find_among_spec(children@, ordinal, i as int) == Err::<Node, u64>(rest),
        decreases children@.len() - i,
    {
        proof {
            assert(decreases_to!(*children => children[i as int]));
        }
        match find_next(&children[i], Err(rest)) {
            Ok(found) => {
                proof {
                    lemma_find_among_stable(children@, ordinal, i as int + 1, children@.len() as int);
                }
                return Ok(found);
            },
            Err(left) => {
                rest = left;
            },
        }
        i = i + 1;
    }
    Err(rest)
}

/// Finds the node that an arrangement pass comes to after `ordinal` others.
pub fn find<'a>(node: &'a Node, ordinal: u64) -> (r: Result<&'a Node, u64>)
    ensures
        match r {
            Ok(found) => find_spec(*node, ordinal) == Ok::<Node, u64>(*found),
            Err(rest) => find_spec(*node, ordinal) == Err::<Node, u64>(rest),
        },
    decreases *node, 0int,
{
    if ordinal == 0 {
        return Ok(node);
    }
    let rest = ordinal - 1;
    match node {
        Node::Sprite(_) => Err(rest),
        Node::BitmapText(_) => Err(rest),
        Node::Stack(n) => find_among(&n.children, rest),
        Node::Row(n) => find_among(&n.children, rest),
        Node::Column(n) => find_among(&n.children, rest),
        Node::Wrap(n) => find_among(&n.children, rest),
        Node::Grid(n) => find_among(&n.children, rest),
        Node::BorderGrid(n) => match &n.quadrants {
            None => Err(rest),
            Some(q) => {
                proof {
                    assert(decreases_to!(n.quadrants => n.quadrants->Some_0));
                }
                let s1 = find_next(&q.up_left, Err(rest));
                let s2 = find_next(&q.up, s1);
                let s3 = find_next(&q.up_right, s2);
                let s4 = find_next(&q.left, s3);
                let s5 = find_next(&q.center, s4);
                let s6 = find_next(&q.right, s5);
                let s7 = find_next(&q.down_left, s6);
                let s8 = find_next(&q.down, s7);
                find_next(&q.down_right, s8)
            },
        },
        Node::Optional(o) => match o {
            Some(child) => find(child, rest),
            None => Err(rest),
        },
    }
}

} // verus!
