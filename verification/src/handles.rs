//! The handle table: an explicit manager object mapping opaque integer
//! handles to in-progress context records. A record is owned by its handle
//! from `insert` until `remove`; a removed or finished handle can never be
//! observed again, only reported as not found.

use vstd::prelude::*;
use std::collections::HashMap;

verus! {

broadcast use vstd::std_specs::hash::group_hash_axioms;

/// A table of live context records, keyed by handle. Handles are allocated
/// by an increasing counter, so a retired handle is never reused.
pub struct HandleMap<T> {
    entries: HashMap<u64, T>,
    next: u64,
}

impl<T> View for HandleMap<T> {
    type V = Map<u64, T>;

    closed spec fn view(&self) -> Map<u64, T> {
        self.entries@
    }
}

impl<T> HandleMap<T> {
    /// The table is well formed: every live handle was allocated below the
    /// counter, so a fresh allocation can never collide with a live one.
    pub closed spec fn wf(&self) -> bool {
        forall|h: u64| self@.contains_key(h) ==> h < self.next
    }

    /// Whether the allocation counter has room for another handle.
    pub closed spec fn can_insert(&self) -> bool {
        self.next < u64::MAX
    }

    /// Whether the handle was allocated at some point in this table's life.
    pub closed spec fn allocated(&self, handle: u64) -> bool {
        handle < self.next
    }

    /// An empty table.
    pub fn new() -> (r: HandleMap<T>)
        ensures
            r@ == Map::<u64, T>::empty(),
            r.wf(),
            r.can_insert(),
    {
        HandleMap { entries: HashMap::new(), next: 1 }
    }

    /// Stores a record and hands back a fresh handle that names it.
    pub fn insert(&mut self, value: T) -> (handle: u64)
        requires
            old(self).wf(),
            old(self).can_insert(),
        ensures
            final(self).wf(),
            !old(self)@.contains_key(handle),
            final(self)@ == old(self)@.insert(handle, value),
            final(self).allocated(handle),
            forall|h: u64| old(self).allocated(h) ==> final(self).allocated(h),
    {
        let handle = self.next;
        self.next = self.next + 1;
        self.entries.insert(handle, value);
        proof {
            assert(self.next == old(self).next + 1);
            assert(self.entries@ == old(self).entries@.insert(handle, value));
            assert forall|h: u64| self@.contains_key(h) implies h < self.next by {
                if h != handle {
                    assert(old(self)@.contains_key(h));
                }
            }
        }
        handle
    }

    /// Whether the handle names a live record.
    pub fn contains(&self, handle: u64) -> (r: bool)
        ensures
            r == self@.contains_key(handle),
    {
        self.entries.contains_key(&handle)
    }

    /// Removes and returns the record named by the handle; afterwards the
    /// handle is not found by any operation.
    pub fn remove(&mut self, handle: u64) -> (r: Option<T>)
        requires
            old(self).wf(),
        ensures
            final(self).wf(),
            final(self)@ == old(self)@.remove(handle),
            final(self).can_insert() == old(self).can_insert(),
            forall|h: u64| final(self).allocated(h) == old(self).allocated(h),
            match r {
                Some(v) => old(self)@.contains_key(handle) && v == old(self)@[handle],
                None => !old(self)@.contains_key(handle),
            },
    {
        let r = self.entries.remove(&handle);
        proof {
            assert forall|h: u64| self@.contains_key(h) implies h < self.next by {
                assert(old(self)@.contains_key(h));
            }
        }
        r
    }

    /// Takes the record out of the table for exclusive mutation; the caller
    /// puts it back with `put` unless the operation retires the handle.
    pub fn take(&mut self, handle: u64) -> (r: Option<T>)
        requires
            old(self).wf(),
        ensures
            final(self).wf(),
            final(self)@ == old(self)@.remove(handle),
            final(self).can_insert() == old(self).can_insert(),
            forall|h: u64| final(self).allocated(h) == old(self).allocated(h),
            r matches Some(v) ==> old(self)@.contains_key(handle) && v == old(self)@[handle]
                && final(self).allocated(handle),
            r is None <==> !old(self)@.contains_key(handle),
    {
        let r = self.entries.remove(&handle);
        proof {
            assert forall|h: u64| self@.contains_key(h) implies h < self.next by {
                assert(old(self)@.contains_key(h));
            }
        }
        r
    }

    /// Puts a record back under a handle that `take` produced.
    pub fn put(&mut self, handle: u64, value: T)
        requires
            old(self).wf(),
            old(self).allocated(handle),
        ensures
            final(self).wf(),
            final(self)@ == old(self)@.insert(handle, value),
            final(self).can_insert() == old(self).can_insert(),
            forall|h: u64| final(self).allocated(h) == old(self).allocated(h),
    {
        self.entries.insert(handle, value);
        proof {
            assert forall|h: u64| self@.contains_key(h) implies h < self.next by {
                if h != handle {
                    assert(old(self)@.contains_key(h));
                }
            }
        }
    }

    /// A read-only view of the record named by the handle.
    pub fn get(&self, handle: u64) -> (r: Option<&T>)
        ensures
            match r {
                Some(v) => self@.contains_key(handle) && *v == self@[handle],
                None => !self@.contains_key(handle),
            },
    {
        self.entries.get(&handle)
    }

    /// The number of live records.
    pub fn len(&self) -> (r: usize)
        ensures
            r == self@.len(),
    {
        self.entries.len()
    }
}

/// The two table states differ at most in the record under `handle`, which
/// the second state holds.
pub open spec fn entry_updated<T>(old_m: Map<u64, T>, new_m: Map<u64, T>, handle: u64) -> bool {
    &&& new_m.contains_key(handle)
    &&& new_m == old_m.insert(handle, new_m[handle])
}

/// Once a handle has been removed from the table, no lookup on that handle
/// can succeed until the table itself hands the handle out again; an
/// operation on a retired handle reports it as not found rather than acting
/// on stale data.
pub proof fn lemma_removed_handle_not_found<T>(m: Map<u64, T>, handle: u64)
    ensures
        !m.remove(handle).contains_key(handle),
{
}

} // verus!
