//! The pipeline's generic component-access contract, satisfied for one
//! free-standing component type.
//!
//! `QueryComponentSetMut<T>` adapts a single component type to the full
//! access surface the pipeline expects: point lookup, iteration, point
//! update and in-place mapping. The multi-type sets mirror the same
//! surface per component type.

use vstd::prelude::*;
use crate::identity::Index;
use crate::store::{ComponentMap, Entry};

verus! {

/// A value that can build the bundle of one physics object's full
/// component set. Implementors decide what the aggregate is; attachment
/// of the result is atomic.
pub trait BundleBuilder {
    type Bundle;

    fn bundle(&self) -> Self::Bundle;
}

/// Read-and-write access adapter for one component type `T`, with a write
/// clock that stamps every update so the change-detection passes can see
/// it.
pub struct QueryComponentSetMut<T> {
    map: ComponentMap<T>,
    clock: u64,
}

impl<T> QueryComponentSetMut<T> {
    /// The component data this adapter exposes.
    pub closed spec fn spec_map(self) -> ComponentMap<T> {
        self.map
    }

    /// The write clock: strictly increases with every write.
    pub closed spec fn spec_clock(self) -> u64 {
        self.clock
    }

    pub open spec fn wf(self) -> bool {
        self.spec_map().wf()
    }

    pub fn new() -> (s: QueryComponentSetMut<T>)
        ensures
            s.wf(),
            s.spec_clock() == 0,
            s.spec_map().spec_len() == 0,
            forall|h: Index| (#[trigger] s.spec_map().spec_entry(h)) is None,
    {
        QueryComponentSetMut { map: ComponentMap::new(), clock: 0 }
    }

    /// Point lookup; empty if the entity lacks `T` or no longer exists.
    pub fn get(&self, handle: Index) -> (r: Option<&T>)
        ensures
            match r {
                Some(v) => self.spec_map().spec_value(handle) == Some(*v),
                None => self.spec_map().spec_value(handle) is None,
            },
    {
        self.map.get(handle)
    }

    /// The pipeline's lower-bound hint on the component count; this
    /// adapter never promises one.
    pub fn size_hint(&self) -> (r: usize)
        ensures
            r == 0,
    {
        0
    }

    /// Makes a freshly spawned entity carry `T`.
    pub fn insert(&mut self, handle: Index, value: T)
        requires
            old(self).wf(),
            !old(self).spec_map().contains(handle),
            old(self).spec_clock() < u64::MAX,
        ensures
            final(self).wf(),
            final(self).spec_clock() == old(self).spec_clock() + 1,
            final(self).spec_map().spec_entry(handle) == Some(
                Entry {
                    value,
                    modified: final(self).spec_clock(),
                    added: final(self).spec_clock(),
                },
            ),
            forall|h2: Index|
                h2 != handle ==> (#[trigger] final(self).spec_map().spec_entry(h2)) == old(
                    self,
                ).spec_map().spec_entry(h2),
    {
        self.clock = self.clock + 1;
        self.map.insert(handle, value, self.clock);
    }

    /// Point update; a no-op (not an error) if the entity lacks `T`.
    pub fn set_internal(&mut self, handle: Index, val: T)
        requires
            old(self).wf(),
            old(self).spec_clock() < u64::MAX,
        ensures
            final(self).wf(),
            final(self).spec_clock() == old(self).spec_clock() + 1,
            match old(self).spec_map().spec_entry(handle) {
                Some(e) => final(self).spec_map().spec_entry(handle) == Some(
                    Entry { value: val, modified: final(self).spec_clock(), added: e.added },
                ),
                None => final(self).spec_map().spec_entry(handle) is None,
            },
            forall|h2: Index|
                h2 != handle ==> (#[trigger] final(self).spec_map().spec_entry(h2)) == old(
                    self,
                ).spec_map().spec_entry(h2),
    {
        self.clock = self.clock + 1;
        self.map.set(handle, val, self.clock);
    }

    /// Evicts the component on despawn or explicit removal.
    pub fn remove(&mut self, handle: Index)
        requires
            old(self).wf(),
        ensures
            final(self).wf(),
            final(self).spec_clock() == old(self).spec_clock(),
            final(self).spec_map().spec_entry(handle) is None,
            forall|h2: Index|
                h2 != handle ==> (#[trigger] final(self).spec_map().spec_entry(h2)) == old(
                    self,
                ).spec_map().spec_entry(h2),
    {
        self.map.remove(handle);
    }
}

impl<T: Copy> QueryComponentSetMut<T> {
    /// In-place mapping of the component: applies `f` to the current
    /// value and stores the first half of its result; `None`, and no
    /// write, if the entity lacks `T`.
    pub fn map_mut_internal<Res, F: FnOnce(T) -> (T, Res)>(&mut self, handle: Index, f: F) -> (r:
        Option<Res>)
        requires
            old(self).wf(),
            old(self).spec_clock() < u64::MAX,
            forall|v: T|
                old(self).spec_map().spec_value(handle) == Some(v) ==> call_requires(f, (v,)),
        ensures
            final(self).wf(),
            match old(self).spec_map().spec_entry(handle) {
                Some(e) => {
                    &&& final(self).spec_clock() == old(self).spec_clock() + 1
                    &&& exists|p: (T, Res)|
                        {
                            &&& #[trigger] call_ensures(f, (e.value,), p)
                            &&& final(self).spec_map().spec_entry(handle) == Some(
                                Entry {
                                    value: p.0,
                                    modified: final(self).spec_clock(),
                                    added: e.added,
                                },
                            )
                            &&& r == Some(p.1)
                        }
                },
                None => {
                    &&& final(self).spec_clock() == old(self).spec_clock()
                    &&& final(self).spec_map().spec_entry(handle) is None
                    &&& r is None
                },
            },
            forall|h2: Index|
                h2 != handle ==> (#[trigger] final(self).spec_map().spec_entry(h2)) == old(
                    self,
                ).spec_map().spec_entry(h2),
    {
        let v0: T;
        match self.map.get(handle) {
            Some(v) => {
                v0 = *v;
            },
            None => {
                return None;
            },
        }
        let pair = f(v0);
        self.clock = self.clock + 1;
        self.map.set(handle, pair.0, self.clock);
        Some(pair.1)
    }

    /// Visits every live entity carrying `T` exactly once; the order is
    /// unspecified and callers must not depend on it.
    pub fn for_each(&self) -> (r: Vec<(Index, T)>)
        requires
            self.wf(),
        ensures
            r@.len() == self.spec_map().spec_len(),
            forall|i: int|
                0 <= i < r@.len() ==> self.spec_map().spec_value(#[trigger] r@[i].0) == Some(
                    r@[i].1,
                ),
            forall|i: int, j: int|
                0 <= i < j < r@.len() ==> (#[trigger] r@[i].0) != (#[trigger] r@[j].0),
            forall|h: Index|
                self.spec_map().contains(h) ==> exists|i: int|
                    0 <= i < r@.len() && (#[trigger] r@[i].0) == h,
    {
        self.map.for_each()
    }
}

} // verus!
