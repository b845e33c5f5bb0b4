//! What the measurement pass remembers of a node for the arrangement pass.

use vstd::prelude::*;
use crate::number::Percentage;
use crate::units::{RealPosition, RealSize, SmallestSize};
use crate::error::LayoutError;

verus! {

/// One character of a text, placed relative to the text's own corner.
#[derive(Clone, Copy, Debug, PartialEq, Eq, Structural)]
pub struct Glyph {
    pub character: char,
    pub position: RealPosition,
    pub size: RealSize,
}

/// The result of measuring one node.
///
/// `children` has one entry for each child of the node, in order: the
/// child's own measurement, or `None` where the child is invisible or was not
/// measured. The other fields are filled by the kinds of node that need them.
pub struct Measured {
    /// The space that the node was measured in.
    pub parent: SmallestSize,
    /// The smallest size of the node.
    pub size: SmallestSize,
    /// The measurements of the children.
    pub children: Vec<Option<Measured>>,
    /// The width that a wrap had to fill.
    pub bound: Percentage,
    /// The size of a grid's cells, where they were measured.
    pub cell: Option<RealSize>,
    /// The characters of a text, where they were laid out.
    pub glyphs: Vec<Glyph>,
}

/// The sizes of a list of measured children.
pub open spec fn sizes(children: Seq<Option<Measured>>) -> Seq<Option<SmallestSize>> {
    Seq::new(children.len(), |i: int| match children[i] {
        Some(m) => Some(m.size),
        None => None,
    })
}

impl Measured {
    /// The measurement of a node that remembers nothing but its size.
    pub fn leaf(parent: SmallestSize, size: SmallestSize) -> (r: Self)
        ensures
            r.parent == parent,
            r.size == size,
            r.children@.len() == 0,
            r.bound == 0,
            r.cell is None,
            r.glyphs@.len() == 0,
    {
        Measured { parent, size, children: Vec::new(), bound: 0, cell: None, glyphs: Vec::new() }
    }
}

/// The sizes of the first `n` children in screen space, where a child that
/// waits for its parent counts as zero. The first child whose size still
/// waits for its content decides the error.
pub open spec fn real_sizes_spec(children: Seq<Option<SmallestSize>>, n: int) -> Result<Seq<Option<RealSize>>, LayoutError>
    decreases n,
{
    if n <= 0 || n > children.len() {
        Ok(Seq::empty())
    } else {
        match real_sizes_spec(children, n - 1) {
            Err(e) => Err(e),
            Ok(before) => match children[n - 1] {
                None => Ok(before.push(None)),
                Some(size) => match size.real_size_spec() {
                    Err(e) => Err(e),
                    Ok(resolved) => Ok(before.push(Some(resolved))),
                },
            },
        }
    }
}

/// An error among the first `i` children is the error of every longer prefix.
pub proof fn lemma_real_sizes_error(children: Seq<Option<SmallestSize>>, i: int, n: int)
    requires
        0 <= i <= n <= children.len(),
        real_sizes_spec(children, i) is Err,
    ensures
        real_sizes_spec(children, n) == real_sizes_spec(children, i),
    decreases n - i,
{
    if i < n {
        lemma_real_sizes_error(children, i, n - 1);
    }
}

/// Whether no child that is there still waits for its own content.
pub open spec fn resolved(children: Seq<Option<SmallestSize>>) -> bool {
    forall|i: int| 0 <= i < children.len() ==> match #[trigger] children[i] {
        Some(size) => size.real_size_spec() is Ok,
        None => true,
    }
}

/// Where the sizes of some children can be taken in screen space, none of
/// them waits for its own content.
pub proof fn lemma_resolved(children: Seq<Option<SmallestSize>>, n: int)
    requires
        0 <= n <= children.len(),
        real_sizes_spec(children, n) is Ok,
    ensures
        forall|i: int| 0 <= i < n ==> match #[trigger] children[i] {
            Some(size) => size.real_size_spec() is Ok,
            None => true,
        },
    decreases n,
{
    if n > 0 {
        lemma_resolved(children, n - 1);
    }
}

/// Tests whether every child's size is known or waits for the parent only,
/// and says of the first that still waits for its own content what is wrong.
pub fn check_resolved(children: &Vec<Option<Measured>>) -> (r: Result<(), LayoutError>)
    ensures
        match r {
            Ok(()) => resolved(sizes(children@)),
            Err(e) => {
                &&& !resolved(sizes(children@))
                &&& real_sizes_spec(sizes(children@), children@.len() as int) == Err::<Seq<Option<RealSize>>, LayoutError>(e)
            },
        },
{
    let mut i: usize = 0;
    while i < children.len()
        invariant
            0 <= i <= children@.len(),
            real_sizes_spec(sizes(children@), i as int) is Ok,
            forall|j: int| 0 <= j < i ==> match #[trigger] sizes(children@)[j] {
                Some(size) => size.real_size_spec() is Ok,
                None => true,
            },
        decreases children@.len() - i,
    {
        match &children[i] {
            None => {},
            Some(child) => match child.size.real_size() {
                Err(e) => {
                    proof {
                        assert(sizes(children@)[i as int] == Some(child.size));
                        lemma_real_sizes_error(sizes(children@), i as int + 1, children@.len() as int);
                    }
                    return Err(e);
                },
                Ok(_) => {},
            },
        }
        i = i + 1;
    }
    Ok(())
}

/// Converts the measured sizes of the children into screen space, where a
/// child that waits for its parent counts as zero.
///
/// A child that still waits for its own content is a mistake of whoever
/// built the scene: it must not come here. [`check_resolved`] tests for it.
pub fn real_sizes(children: &Vec<Option<Measured>>) -> (r: Vec<Option<RealSize>>)
    requires
        resolved(sizes(children@)),
    ensures
        real_sizes_spec(sizes(children@), children@.len() as int) == Ok::<Seq<Option<RealSize>>, LayoutError>(r@),
        r@.len() == children@.len(),
{
    let mut out: Vec<Option<RealSize>> = Vec::new();
    let mut i: usize = 0;
    while i < children.len()
        invariant
            0 <= i <= children@.len(),
            out@.len() == i,
            resolved(sizes(children@)),
            real_sizes_spec(sizes(children@), i as int) == Ok::<Seq<Option<RealSize>>, LayoutError>(out@),
        decreases children@.len() - i,
    {
        match &children[i] {
            None => {
                out.push(None);
            },
            Some(child) => {
                proof {
                    assert(sizes(children@)[i as int] == Some(child.size));
                }
                match child.size.real_size() {
                    Ok(size) => {
                        out.push(Some(size));
                    },
                    Err(_) => {
                        out.push(None);
                    },
                }
            },
        }
        i = i + 1;
    }
    out
}

} // verus!
