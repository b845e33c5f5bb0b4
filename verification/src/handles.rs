//! Handles: names for assets that the renderer owns, and a table that is
//! looked up by handle.

use vstd::prelude::*;

verus! {

/// The name of an asset. Two handles name the same asset exactly if their
/// ids are the same; whoever makes handles gives each asset an id of its own.
#[derive(Clone, Copy, Debug, PartialEq, Eq, Structural)]
pub struct Handle {
    pub id: u64,
}

impl Handle {
    /// The handle with the id `id`.
    pub fn new(id: u64) -> (r: Self)
        ensures
            r.id == id,
    {
        Handle { id }
    }

    /// Whether both handles name the same asset.
    pub fn eq(&self, other: &Self) -> (r: bool)
        ensures
            r == (self.id == other.id),
    {
        self.id == other.id
    }
}

/// Gives out handles, each with an id that was not given out before.
#[derive(Clone, Copy, Debug, PartialEq, Eq, Structural)]
pub struct HandleSource {
    pub next: u64,
}

impl HandleSource {
    /// A source that has given out no handle yet.
    pub fn new() -> (r: Self)
        ensures
            r.next == 0,
    {
        HandleSource { next: 0 }
    }

    /// Makes a new handle, unless every id has been given out.
    pub fn make(&mut self) -> (r: Option<Handle>)
        ensures
            old(self).next < u64::MAX ==> r == Some(Handle { id: old(self).next }) && final(self).next == old(self).next + 1,
            old(self).next == u64::MAX ==> r is None && final(self).next == old(self).next,
    {
        if self.next == u64::MAX {
            None
        } else {
            let id = self.next;
            self.next = id + 1;
            Some(Handle { id })
        }
    }
}

/// Container for looking up a `T` value based on a [`Handle`].
pub struct Handles<T> {
    pub values: Vec<(Handle, T)>,
}

/// Where among the first `n` entries the handle is found first, if at all.
pub open spec fn position_spec<T>(values: Seq<(Handle, T)>, handle: Handle, n: int) -> Option<int>
    decreases n,
{
    if n <= 0 || n > values.len() {
        None
    } else {
        match position_spec(values, handle, n - 1) {
            Some(i) => Some(i),
            None => if values[n - 1].0 == handle {
                Some(n - 1)
            } else {
                None
            },
        }
    }
}

/// What the position says: the entry there has the handle and none before it
/// has; and where there is no position, no entry has the handle.
pub proof fn lemma_position<T>(values: Seq<(Handle, T)>, handle: Handle, n: int)
    requires
        0 <= n <= values.len(),
    ensures
        match position_spec(values, handle, n) {
            Some(i) => 0 <= i < n && values[i].0 == handle && forall|j: int| 0 <= j < i ==> (#[trigger] values[j]).0 != handle,
            None => forall|j: int| 0 <= j < n ==> (#[trigger] values[j]).0 != handle,
        },
    decreases n,
{
    if n > 0 {
        lemma_position(values, handle, n - 1);
    }
}

/// A handle that is found among the first `i` entries is found at the same
/// place among more of them.
pub proof fn lemma_position_stable<T>(values: Seq<(Handle, T)>, handle: Handle, i: int, n: int)
    requires
        0 <= i <= n <= values.len(),
        position_spec(values, handle, i) is Some,
    ensures
        position_spec(values, handle, n) == position_spec(values, handle, i),
    decreases n - i,
{
    if i < n {
        lemma_position_stable(values, handle, i, n - 1);
    }
}

/// The first entry with the handle is where the handle is found.
pub proof fn lemma_position_found<T>(values: Seq<(Handle, T)>, handle: Handle, i: int, n: int)
    requires
        0 <= i < n <= values.len(),
        values[i].0 == handle,
        forall|j: int| 0 <= j < i ==> (#[trigger] values[j]).0 != handle,
    ensures
        position_spec(values, handle, n) == Some(i),
    decreases n,
{
    lemma_position(values, handle, n - 1);
    if i < n - 1 {
        lemma_position_found(values, handle, i, n - 1);
    }
}

impl<T> Handles<T> {
    /// Whether no handle has two entries.
    pub open spec fn wf(self) -> bool {
        forall|i: int, j: int| 0 <= i < j < self.values@.len() ==> (#[trigger] self.values@[i]).0 != (#[trigger] self.values@[j]).0
    }

    /// Where the handle's entry is.
    pub open spec fn index_spec(self, handle: Handle) -> Option<int> {
        position_spec(self.values@, handle, self.values@.len() as int)
    }

    /// The value that is held for the handle.
    pub open spec fn get_spec(self, handle: Handle) -> Option<T> {
        match self.index_spec(handle) {
            Some(i) => Some(self.values@[i].1),
            None => None,
        }
    }

    /// Whether a value is held for the handle.
    pub open spec fn contains(self, handle: Handle) -> bool {
        self.index_spec(handle) is Some
    }

    /// The empty table.
    pub fn new() -> (r: Self)
        ensures
            r.values@.len() == 0,
            r.wf(),
    {
        Handles { values: Vec::new() }
    }

    /// Finds the entry of the handle.
    pub fn index(&self, handle: &Handle) -> (r: Option<usize>)
        ensures
            match r {
                Some(i) => self.index_spec(*handle) == Some(i as int) && i < self.values@.len(),
                None => self.index_spec(*handle) is None,
            },
    {
        let mut i: usize = 0;
        while i < self.values.len()
            invariant
                0 <= i <= self.values@.len(),
                position_spec(self.values@, *handle, i as int) is None,
            decreases self.values@.len() - i,
        {
            if self.values[i].0.eq(handle) {
                proof {
                    lemma_position_stable(self.values@, *handle, i as int + 1, self.values@.len() as int);
                }
                return Some(i);
            }
            i = i + 1;
        }
        None
    }

    /// The number of entries.
    pub fn len(&self) -> (r: usize)
        ensures
            r == self.values@.len(),
    {
        self.values.len()
    }

    /// Looks up the value of a handle.
    pub fn get(&self, handle: &Handle) -> (r: Option<&T>)
        ensures
            match r {
                Some(value) => self.get_spec(*handle) == Some(*value),
                None => self.get_spec(*handle) is None,
            },
    {
        match self.index(handle) {
            Some(i) => Some(&self.values[i].1),
            None => None,
        }
    }

    /// Holds `value` for the handle from now on. Returns the value that was
    /// held for it before, if any was; its entry keeps its place. A handle
    /// that is new gets the last place.
    pub fn insert(&mut self, handle: &Handle, value: T) -> (r: Option<T>)
        ensures
            r == old(self).get_spec(*handle),
            final(self).get_spec(*handle) == Some(value),
            match old(self).index_spec(*handle) {
                Some(i) => final(self).values@ == old(self).values@.update(i, (*handle, value)),
                None => final(self).values@ == old(self).values@.push((*handle, value)),
            },
            old(self).wf() ==> final(self).wf(),
    {
        proof {
            lemma_position(self.values@, *handle, self.values@.len() as int);
        }
        let found = self.index(handle);
        self.values.push((*handle, value));
        let r = match found {
            Some(i) => {
                let old_entry = self.values.swap_remove(i);
                Some(old_entry.1)
            },
            None => None,
        };
        proof {
            match found {
                Some(i) => {
                    assert(self.values@ =~= old(self).values@.update(i as int, (*handle, value)));
                    lemma_position_found(self.values@, *handle, i as int, self.values@.len() as int);
                },
                None => {
                    lemma_position_found(self.values@, *handle, old(self).values@.len() as int, self.values@.len() as int);
                },
            }
        }
        r
    }

    /// Forgets the handle and returns the value that was held for it. The
    /// last entry takes the place of the one that leaves.
    pub fn remove(&mut self, handle: &Handle) -> (r: Option<T>)
        ensures
            r == old(self).get_spec(*handle),
            match old(self).index_spec(*handle) {
                Some(i) => final(self).values@ == old(self).values@.update(i, old(self).values@.last()).drop_last(),
                None => final(self).values@ == old(self).values@,
            },
            old(self).wf() ==> final(self).wf() && final(self).get_spec(*handle) is None,
    {
        proof {
            lemma_position(self.values@, *handle, self.values@.len() as int);
        }
        let r = match self.index(handle) {
            Some(i) => {
                let entry = self.values.swap_remove(i);
                Some(entry.1)
            },
            None => None,
        };
        proof {
            lemma_position(self.values@, *handle, self.values@.len() as int);
        }
        r
    }
}

/// In a table without doubles, other handles keep their values when one
/// handle's value is set.
pub proof fn lemma_insert_keeps_others<T>(before: Seq<(Handle, T)>, handle: Handle, value: T, other: Handle)
    requires
        other != handle,
    ensures
        match position_spec(before, handle, before.len() as int) {
            Some(i) => position_spec(before.update(i, (handle, value)), other, before.len() as int)
                == position_spec(before, other, before.len() as int),
            None => position_spec(before.push((handle, value)), other, before.len() as int + 1)
                == position_spec(before, other, before.len() as int),
        },
{
    lemma_position(before, handle, before.len() as int);
    match position_spec(before, handle, before.len() as int) {
        Some(i) => {
            lemma_same_handles(before, before.update(i, (handle, value)), other, before.len() as int);
        },
        None => {
            lemma_same_handles(before, before.push((handle, value)), other, before.len() as int);
        },
    }
}

/// Two tables with the same handles in their first `n` places find a handle
/// at the same place among them.
pub proof fn lemma_same_handles<T>(a: Seq<(Handle, T)>, b: Seq<(Handle, T)>, handle: Handle, n: int)
    requires
        0 <= n <= a.len(),
        n <= b.len(),
        forall|i: int| #![trigger a[i], b[i]] 0 <= i < n ==> ((a[i].0 == handle) == (b[i].0 == handle)),
    ensures
        position_spec(a, handle, n) == position_spec(b, handle, n),
    decreases n,
{
    if n > 0 {
        lemma_same_handles(a, b, handle, n - 1);
    }
}

} // verus!
