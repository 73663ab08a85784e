//! The resource table: a store of host-owned values behind opaque `u32`
//! handles.
//!
//! A handle is valid exactly between its creation and its explicit
//! deletion; slots are never reused, so a deleted handle can never alias a
//! resource created later. An entry may record a parent handle: such
//! children are views into the parent's state, and the table's deletion
//! routine refuses to delete an entry that still has live children, which
//! keeps every child's parent live.

use vstd::prelude::*;
use crate::errors::TableError;

verus! {

/// One live slot: the stored value plus an optional parent handle.
pub struct Entry<V> {
    pub value: V,
    pub parent: Option<u32>,
}

/// Store of host-owned values behind opaque `u32` handles.
pub struct Table<V> {
    entries: Vec<Option<Entry<V>>>,
}

impl<V> Table<V> {
    /// Number of handles ever allocated, live or dead. Handles are issued
    /// in order, so every handle ever issued is below this mark.
    pub closed spec fn num_slots(self) -> int {
        self.entries@.len() as int
    }

    /// `h` refers to a live entry.
    pub closed spec fn live(self, h: u32) -> bool {
        h < self.entries@.len() && self.entries@[h as int] is Some
    }

    /// The value stored under `h` (meaningful only while `live(h)`).
    pub closed spec fn value_of(self, h: u32) -> V {
        self.entries@[h as int]->Some_0.value
    }

    /// The parent recorded for `h` (meaningful only while `live(h)`).
    pub closed spec fn parent_of(self, h: u32) -> Option<u32> {
        self.entries@[h as int]->Some_0.parent
    }

    /// `h` was issued once and has since been deleted.
    pub open spec fn retired(self, h: u32) -> bool {
        h < self.num_slots() && !self.live(h)
    }

    /// Some live entry names `h` as its parent.
    pub open spec fn has_children(self, h: u32) -> bool {
        exists|c: u32| #![trigger self.parent_of(c)] self.live(c) && self.parent_of(c) == Some(h)
    }

    /// What `get(h)` returns, as a spec-level value.
    pub open spec fn spec_get(self, h: u32) -> Result<V, TableError> {
        if self.live(h) {
            Result::Ok(self.value_of(h))
        } else {
            Result::Err(TableError::NotPresent)
        }
    }

    /// Table invariant: no more slots than handles representable, and a
    /// live child's parent is itself live (children are deleted no later
    /// than their parents).
    pub open spec fn wf(self) -> bool {
        &&& self.num_slots() <= u32::MAX as int
        &&& forall|c: u32| #![trigger self.parent_of(c)]
                self.live(c) && self.parent_of(c) is Some ==> self.live(self.parent_of(c)->Some_0)
    }

    /// An empty table.
    pub fn new() -> (t: Table<V>)
        ensures
            t.wf(),
            t.num_slots() == 0,
            forall|h: u32| !t.live(h),
    {
        Table { entries: Vec::new() }
    }

    /// Stores `value` under a fresh handle. Fails only on allocation
    /// exhaustion, leaving the table unchanged.
    pub fn push(&mut self, value: V) -> (r: Result<u32, TableError>)
        requires
            old(self).wf(),
        ensures
            final(self).wf(),
            match r {
                Ok(h) => {
                    &&& h == old(self).num_slots()
                    &&& !old(self).live(h)
                    &&& final(self).num_slots() == old(self).num_slots() + 1
                    &&& final(self).live(h)
                    &&& final(self).value_of(h) == value
                    &&& final(self).parent_of(h) is None
                    &&& forall|c: u32| c != h ==> final(self).live(c) == old(self).live(c)
                    &&& forall|c: u32| old(self).live(c)
                            ==> final(self).value_of(c) == old(self).value_of(c)
                                && final(self).parent_of(c) == old(self).parent_of(c)
                    &&& forall|c: u32| old(self).retired(c) ==> final(self).retired(c)
                }
                Err(e) => {
                    &&& e == TableError::Full
                    &&& old(self).num_slots() == u32::MAX as int
                    &&& *final(self) == *old(self)
                }
            },
    {
        let ghost pre = *self;
        if self.entries.len() >= u32::MAX as usize {
            return Err(TableError::Full);
        }
        let h = self.entries.len() as u32;
        self.entries.push(Some(Entry { value, parent: None }));
        proof {
            lemma_wf_after_append(pre, *self, None);
        }
        Ok(h)
    }

    /// Stores `value` under a fresh handle as a child of `parent`: the new
    /// entry is a view tied to the parent's lifetime. Fails if the parent
    /// is not live, leaving the table unchanged.
    pub fn push_child(&mut self, value: V, parent: u32) -> (r: Result<u32, TableError>)
        requires
            old(self).wf(),
        ensures
            final(self).wf(),
            match r {
                Ok(h) => {
                    &&& old(self).live(parent)
                    &&& h == old(self).num_slots()
                    &&& !old(self).live(h)
                    &&& final(self).num_slots() == old(self).num_slots() + 1
                    &&& final(self).live(h)
                    &&& final(self).value_of(h) == value
                    &&& final(self).parent_of(h) == Some(parent)
                    &&& forall|c: u32| c != h ==> final(self).live(c) == old(self).live(c)
                    &&& forall|c: u32| old(self).live(c)
                            ==> final(self).value_of(c) == old(self).value_of(c)
                                && final(self).parent_of(c) == old(self).parent_of(c)
                    &&& forall|c: u32| old(self).retired(c) ==> final(self).retired(c)
                }
                Err(TableError::NotPresent) => {
                    &&& !old(self).live(parent)
                    &&& *final(self) == *old(self)
                }
                Err(TableError::Full) => {
                    &&& old(self).num_slots() == u32::MAX as int
                    &&& *final(self) == *old(self)
                }
                Err(_) => false,
            },
    {
        let ghost pre = *self;
        let parent_live = (parent as usize) < self.entries.len() && self.entries[parent as usize].is_some();
        if !parent_live {
            return Err(TableError::NotPresent);
        }
        if self.entries.len() >= u32::MAX as usize {
            return Err(TableError::Full);
        }
        let h = self.entries.len() as u32;
        self.entries.push(Some(Entry { value, parent: Some(parent) }));
        proof {
            lemma_wf_after_append(pre, *self, Some(parent));
        }
        Ok(h)
    }

    /// Looks the handle up. A dead handle (deleted or never issued) fails
    /// with `NotPresent`; it never succeeds and never panics.
    pub fn get(&self, h: u32) -> (r: Result<&V, TableError>)
        ensures
            match r {
                Ok(v) => self.live(h) && *v == self.value_of(h),
                Err(e) => e == TableError::NotPresent && !self.live(h),
            },
    {
        if (h as usize) < self.entries.len() {
            match &self.entries[h as usize] {
                Some(e) => Ok(&e.value),
                None => Err(TableError::NotPresent),
            }
        } else {
            Err(TableError::NotPresent)
        }
    }

    /// Whether `h` is live, as an executable check.
    pub fn contains(&self, h: u32) -> (r: bool)
        ensures
            r == self.live(h),
    {
        (h as usize) < self.entries.len() && self.entries[h as usize].is_some()
    }

    /// Borrows the value under a live handle mutably. Everything except the
    /// borrowed value — liveness, parents, the other entries — stays as it
    /// was.
    pub fn get_mut(&mut self, h: u32) -> (r: &mut V)
        requires
            old(self).wf(),
            old(self).live(h),
        ensures
            *r == old(self).value_of(h),
            final(self).num_slots() == old(self).num_slots(),
            final(self).value_of(h) == *final(r),
            forall|c: u32| final(self).live(c) == old(self).live(c),
            forall|c: u32| old(self).live(c) ==> final(self).parent_of(c) == old(self).parent_of(c),
            forall|c: u32| c != h && old(self).live(c)
                ==> final(self).value_of(c) == old(self).value_of(c),
            forall|c: u32| old(self).retired(c) ==> final(self).retired(c),
    {
        let slot = vstd::std_specs::vec::vec_index_mut(&mut self.entries, h as usize);
        match slot {
            Some(e) => &mut e.value,
            None => vstd::pervasive::unreached(),
        }
    }

    /// Deletes the entry and returns ownership of its value. Fails with
    /// `NotPresent` on a dead handle and with `HasChildren` while a live
    /// child still refers to the entry; in both cases the table is
    /// unchanged.
    pub fn delete(&mut self, h: u32) -> (r: Result<V, TableError>)
        requires
            old(self).wf(),
        ensures
            final(self).wf(),
            final(self).num_slots() == old(self).num_slots(),
            match r {
                Ok(v) => {
                    &&& old(self).live(h)
                    &&& !old(self).has_children(h)
                    &&& v == old(self).value_of(h)
                    &&& !final(self).live(h)
                    &&& final(self).retired(h)
                    &&& forall|c: u32| c != h ==> final(self).live(c) == old(self).live(c)
                    &&& forall|c: u32| c != h && old(self).live(c)
                            ==> final(self).value_of(c) == old(self).value_of(c)
                                && final(self).parent_of(c) == old(self).parent_of(c)
                    &&& forall|c: u32| old(self).retired(c) ==> final(self).retired(c)
                }
                Err(TableError::NotPresent) => {
                    &&& !old(self).live(h)
                    &&& *final(self) == *old(self)
                }
                Err(TableError::HasChildren) => {
                    &&& old(self).live(h)
                    &&& old(self).has_children(h)
                    &&& *final(self) == *old(self)
                }
                Err(_) => false,
            },
    {
        let ghost pre = *self;
        if !((h as usize) < self.entries.len() && self.entries[h as usize].is_some()) {
            return Err(TableError::NotPresent);
        }
        let n = self.entries.len();
        let mut c: usize = 0;
        while c < n
            invariant
                *self == pre,
                pre.wf(),
                n == self.entries@.len(),
                n <= u32::MAX as usize,
                c <= n,
                self.live(h),
                forall|k: u32| #![trigger self.parent_of(k)]
                    k < c ==> !(self.live(k) && self.parent_of(k) == Some(h)),
            decreases n - c,
        {
            let is_child = match &self.entries[c] {
                Some(e) => match e.parent {
                    Some(p) => p == h,
                    None => false,
                },
                None => false,
            };
            if is_child {
                proof {
                    assert(self.live(c as u32) && self.parent_of(c as u32) == Some(h));
                    assert(self.has_children(h));
                }
                return Err(TableError::HasChildren);
            }
            c += 1;
        }
        proof {
            assert(forall|k: u32| #![trigger self.parent_of(k)]
                self.live(k) ==> k < n);
            assert(!pre.has_children(h));
        }
        let slot = vstd::std_specs::vec::vec_index_mut(&mut self.entries, h as usize);
        let taken = slot.take();
        proof {
            assert(self.entries@ == pre.entries@.update(h as int, None::<Entry<V>>));
            assert forall|k: u32| #![trigger self.parent_of(k)]
                self.live(k) && self.parent_of(k) is Some
                implies self.live(self.parent_of(k)->Some_0) by {
                assert(k != h);
                assert(self.entries@[k as int] == pre.entries@[k as int]);
                assert(pre.live(k));
                let p = self.parent_of(k)->Some_0;
                assert(pre.parent_of(k) == self.parent_of(k));
                assert(pre.live(p));
                if p == h {
                    assert(pre.has_children(h));
                }
                assert(self.entries@[p as int] == pre.entries@[p as int]);
            }
        }
        match taken {
            Some(e) => Ok(e.value),
            None => vstd::pervasive::unreached(),
        }
    }
}

/// The invariant depends only on the table's shape — which handles are
/// live and what their parents are — not on the stored values. After a
/// mutation through `get_mut`, whose contract keeps that shape, this
/// rebuilds `wf` for the new table.
pub proof fn lemma_wf_preserved<V>(pre: Table<V>, post: Table<V>)
    requires
        pre.wf(),
        post.num_slots() == pre.num_slots(),
        forall|c: u32| post.live(c) == pre.live(c),
        forall|c: u32| pre.live(c) ==> post.parent_of(c) == pre.parent_of(c),
    ensures
        post.wf(),
{
    assert forall|c: u32| #![trigger post.parent_of(c)]
        post.live(c) && post.parent_of(c) is Some
        implies post.live(post.parent_of(c)->Some_0) by {
        assert(pre.live(c));
        assert(pre.parent_of(c) == post.parent_of(c));
        assert(pre.live(pre.parent_of(c)->Some_0));
    }
}

/// The invariant survives appending one entry whose parent, if any, was
/// already live.
proof fn lemma_wf_after_append<V>(pre: Table<V>, post: Table<V>, parent: Option<u32>)
    requires
        pre.wf(),
        pre.num_slots() < u32::MAX as int,
        post.entries@.len() == pre.entries@.len() + 1,
        forall|i: int| 0 <= i < pre.entries@.len() ==> post.entries@[i] == pre.entries@[i],
        post.parent_of(pre.entries@.len() as u32) == parent,
        (parent matches Some(p) ==> pre.live(p)),
    ensures
        post.wf(),
{
    assert forall|c: u32| #![trigger post.parent_of(c)]
        post.live(c) && post.parent_of(c) is Some
        implies post.live(post.parent_of(c)->Some_0) by {
        let p = post.parent_of(c)->Some_0;
        if (c as int) < pre.entries@.len() {
            assert(post.entries@[c as int] == pre.entries@[c as int]);
            assert(pre.live(c));
            assert(pre.parent_of(c) == post.parent_of(c));
            assert(pre.live(p));
            assert(post.entries@[p as int] == pre.entries@[p as int]);
        } else {
            assert(c == pre.entries@.len() as u32);
            assert(pre.live(p));
            assert(post.entries@[p as int] == pre.entries@[p as int]);
        }
    }
}

/// Law: once a handle has been deleted it stays dead — every operation
/// preserves `retired` (see the liveness clauses of `push`, `push_child`,
/// `get_mut` and `delete`) — and `get` on such a handle always fails with
/// the not-found error: it never succeeds and never panics.
pub proof fn lemma_retired_get_fails<V>(t: Table<V>, h: u32)
    requires
        t.retired(h),
    ensures
        t.spec_get(h) == Result::<V, TableError>::Err(TableError::NotPresent),
{
}

} // verus!
