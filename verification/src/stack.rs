//! Stacks: children on top of each other, all in the place of the stack.

use vstd::prelude::*;
use crate::number::larger;
use crate::number::larger_spec;
use crate::units::{RealSize, RealLocation};

verus! {

/// The size that the first `n` children need: on each axis the largest of
/// their sizes, and not less than zero.
pub open spec fn content_spec(children: Seq<Option<RealSize>>, n: int) -> RealSize
    decreases n,
{
    if n <= 0 || n > children.len() {
        RealSize { width: 0, height: 0 }
    } else {
        let before = content_spec(children, n - 1);
        match children[n - 1] {
            None => before,
            Some(child) => RealSize {
                width: larger_spec(before.width as int, child.width as int) as i64,
                height: larger_spec(before.height as int, child.height as int) as i64,
            },
        }
    }
}

/// The smallest size that holds every child.
pub fn content(children: &Vec<Option<RealSize>>) -> (r: RealSize)
    ensures
        r == content_spec(children@, children@.len() as int),
{
    let mut size = RealSize { width: 0, height: 0 };
    let mut i: usize = 0;
    while i < children.len()
        invariant
            0 <= i <= children@.len(),
            size == content_spec(children@, i as int),
        decreases children@.len() - i,
    {
        match &children[i] {
            None => {},
            Some(child) => {
                size = RealSize {
                    width: larger(size.width, child.width),
                    height: larger(size.height, child.height),
                };
            },
        }
        i = i + 1;
    }
    size
}

/// The place of child `i` of a stack whose content is at `this`: the same
/// place, for every child that is there.
pub open spec fn place_spec(this: RealLocation, present: Seq<bool>, i: int) -> Option<RealLocation> {
    if present[i] {
        Some(this)
    } else {
        None
    }
}

/// The content of a stack is at least as large as each of its children.
pub proof fn lemma_holds_every_child(children: Seq<Option<RealSize>>, i: int, n: int)
    requires
        0 <= i < n <= children.len(),
        children[i] is Some,
    ensures
        content_spec(children, n).width >= children[i]->Some_0.width,
        content_spec(children, n).height >= children[i]->Some_0.height,
        content_spec(children, n).width >= 0,
        content_spec(children, n).height >= 0,
    decreases n,
{
    lemma_positive(children, n - 1);
    if i < n - 1 {
        lemma_holds_every_child(children, i, n - 1);
    }
}

/// The content of a stack has no negative size.
pub proof fn lemma_positive(children: Seq<Option<RealSize>>, n: int)
    requires
        0 <= n <= children.len(),
    ensures
        content_spec(children, n).width >= 0,
        content_spec(children, n).height >= 0,
    decreases n,
{
    if n > 0 {
        lemma_positive(children, n - 1);
    }
}

} // verus!
