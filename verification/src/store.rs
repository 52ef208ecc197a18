//! A handle-keyed component store with write stamps.
//!
//! `ComponentMap<T>` models one component type's slice of the host store:
//! a set of live entities, each carrying one value of `T` together with
//! the clock stamps of its insertion and its latest write. The stamps
//! drive the change-detection pass: a component counts as "modified or
//! added since last observation" exactly when its write stamp is newer
//! than the observer's snapshot.

use vstd::prelude::*;
use vstd::pervasive::VecAdditionalExecFns;
use crate::identity::Index;

verus! {

/// One stored component: its value and the clock stamps of its insertion
/// (`added`) and of its latest write (`modified`).
#[derive(Clone, Copy, Debug)]
pub struct Entry<T> {
    pub value: T,
    pub modified: u64,
    pub added: u64,
}

/// First-match lookup in an association sequence. With distinct keys this
/// is the map sense of lookup.
pub open spec fn find_entry<T>(s: Seq<(Index, Entry<T>)>, h: Index) -> Option<Entry<T>>
    decreases s.len(),
{
    if s.len() == 0 {
        None
    } else if s[0].0 == h {
        Some(s[0].1)
    } else {
        find_entry(s.drop_first(), h)
    }
}

proof fn lemma_find_present<T>(s: Seq<(Index, Entry<T>)>, h: Index, i: int)
    requires
        0 <= i < s.len(),
        s[i].0 == h,
        forall|j: int| 0 <= j < i ==> (#[trigger] s[j].0) != h,
    ensures
        find_entry(s, h) == Some(s[i].1),
    decreases i,
{
    if i == 0 {
    } else {
        assert(s[0].0 != h);
        assert(s.drop_first()[i - 1] == s[i]);
        assert(forall|j: int| 0 <= j < i - 1 ==> (#[trigger] s.drop_first()[j].0) != h);
        lemma_find_present(s.drop_first(), h, i - 1);
    }
}

proof fn lemma_find_absent<T>(s: Seq<(Index, Entry<T>)>, h: Index)
    requires
        forall|j: int| 0 <= j < s.len() ==> (#[trigger] s[j].0) != h,
    ensures
        find_entry(s, h) is None,
    decreases s.len(),
{
    if s.len() == 0 {
    } else {
        assert(forall|j: int| 0 <= j < s.len() - 1 ==> (#[trigger] s.drop_first()[j].0) != h);
        lemma_find_absent(s.drop_first(), h);
    }
}

proof fn lemma_find_some_exists<T>(s: Seq<(Index, Entry<T>)>, h: Index)
    requires
        find_entry(s, h) is Some,
    ensures
        exists|i: int|
            0 <= i < s.len() && (#[trigger] s[i].0) == h && s[i].1 == find_entry(s, h)->Some_0,
    decreases s.len(),
{
    if s.len() == 0 {
    } else if s[0].0 == h {
        assert(s[0].0 == h && s[0].1 == find_entry(s, h)->Some_0);
    } else {
        lemma_find_some_exists(s.drop_first(), h);
        let j = choose|j: int|
            0 <= j < s.drop_first().len() && (#[trigger] s.drop_first()[j].0) == h
                && s.drop_first()[j].1 == find_entry(s.drop_first(), h)->Some_0;
        assert(s[j + 1] == s.drop_first()[j]);
        assert(s[j + 1].0 == h && s[j + 1].1 == find_entry(s, h)->Some_0);
    }
}

proof fn lemma_find_none_not_exists<T>(s: Seq<(Index, Entry<T>)>, h: Index)
    requires
        find_entry(s, h) is None,
    ensures
        forall|i: int| 0 <= i < s.len() ==> (#[trigger] s[i].0) != h,
    decreases s.len(),
{
    if s.len() == 0 {
    } else {
        lemma_find_none_not_exists(s.drop_first(), h);
        assert forall|i: int| 0 <= i < s.len() implies (#[trigger] s[i].0) != h by {
            if i > 0 {
                assert(s.drop_first()[i - 1] == s[i]);
            }
        }
    }
}

/// Bundle atomicity between two component types: exactly the same
/// entities carry both.
pub open spec fn doms_agree<A, B>(a: ComponentMap<A>, b: ComponentMap<B>) -> bool {
    &&& forall|h: Index| (#[trigger] a.spec_entry(h)) is Some ==> b.spec_entry(h) is Some
    &&& forall|h: Index| (#[trigger] b.spec_entry(h)) is Some ==> a.spec_entry(h) is Some
}

/// A stamp bound that holds at one clock keeps holding as the clock
/// advances.
pub proof fn lemma_stamps_le_mono<T>(m: ComponentMap<T>, c1: u64, c2: u64)
    requires
        m.stamps_le(c1),
        c1 <= c2,
    ensures
        m.stamps_le(c2),
{
}

/// One component type's store slice, keyed by handle.
pub struct ComponentMap<T> {
    entries: Vec<(Index, Entry<T>)>,
}

impl<T> ComponentMap<T> {
    /// Well-formed: no handle occurs twice.
    pub closed spec fn wf(self) -> bool {
        forall|i: int, j: int|
            0 <= i < j < self.entries@.len() ==> (#[trigger] self.entries@[i].0) != (
            #[trigger] self.entries@[j].0)
    }

    /// The stored entry for a handle, if the entity is live and carries
    /// this component.
    pub closed spec fn spec_entry(self, h: Index) -> Option<Entry<T>> {
        find_entry(self.entries@, h)
    }

    pub open spec fn contains(self, h: Index) -> bool {
        self.spec_entry(h) is Some
    }

    /// The stored value for a handle, the map sense of the store.
    pub open spec fn spec_value(self, h: Index) -> Option<T> {
        match self.spec_entry(h) {
            Some(e) => Some(e.value),
            None => None,
        }
    }

    /// The write stamp of a handle's component; absent components have no
    /// stamp and never count as changed.
    pub open spec fn spec_modified_since(self, h: Index, observed: u64) -> bool {
        match self.spec_entry(h) {
            Some(e) => e.modified > observed,
            None => false,
        }
    }

    /// Whether the component was inserted after the observation point.
    pub open spec fn spec_added_since(self, h: Index, observed: u64) -> bool {
        match self.spec_entry(h) {
            Some(e) => e.added > observed,
            None => false,
        }
    }

    /// Every stamp is at most `clock`, and no write precedes the
    /// insertion it belongs to.
    pub open spec fn stamps_le(self, clock: u64) -> bool {
        forall|h: Index|
            #[trigger] self.spec_entry(h) matches Some(e) ==> e.added <= e.modified
                && e.modified <= clock
    }

    pub closed spec fn spec_len(self) -> nat {
        self.entries@.len()
    }

    /// The handle stored at a representation slot; used by the
    /// change-detection pass to walk the store.
    pub closed spec fn spec_key_at(self, i: int) -> Index {
        self.entries@[i].0
    }

    pub fn new() -> (m: ComponentMap<T>)
        ensures
            m.wf(),
            m.spec_len() == 0,
            forall|h: Index| (#[trigger] m.spec_entry(h)) is None,
    {
        let m = ComponentMap { entries: Vec::new() };
        proof {
            assert forall|h: Index| (#[trigger] m.spec_entry(h)) is None by {
                lemma_find_absent(m.entries@, h);
            }
        }
        m
    }

    /// Index of the slot holding `h`, if any.
    fn find_index(&self, h: Index) -> (r: Option<usize>)
        ensures
            r is Some <==> self.contains(h),
            r matches Some(i) ==> i < self.entries@.len() && self.entries@[i as int].0 == h
                && self.spec_entry(h) == Some(self.entries@[i as int].1),
    {
        let n = self.entries.len();
        let mut i: usize = 0;
        while i < n
            invariant
                i <= n,
                n == self.entries@.len(),
                forall|j: int| 0 <= j < i ==> (#[trigger] self.entries@[j].0) != h,
            decreases n - i,
        {
            if self.entries[i].0 == h {
                proof {
                    lemma_find_present(self.entries@, h, i as int);
                }
                return Some(i);
            }
            i += 1;
        }
        proof {
            lemma_find_absent(self.entries@, h);
        }
        None
    }

    /// Point lookup: the component of a live entity, or empty when the
    /// entity is gone or does not carry this component type.
    pub fn get(&self, handle: Index) -> (r: Option<&T>)
        ensures
            match r {
                Some(v) => self.spec_value(handle) == Some(*v),
                None => self.spec_value(handle) is None,
            },
    {
        match self.find_index(handle) {
            Some(i) => Some(&self.entries[i].1.value),
            None => None,
        }
    }

    pub fn num_entries(&self) -> (n: usize)
        ensures
            n == self.spec_len(),
    {
        self.entries.len()
    }

    /// Inserts a fresh component, stamping insertion and write with
    /// `stamp`.
    pub fn insert(&mut self, handle: Index, value: T, stamp: u64)
        requires
            old(self).wf(),
            !old(self).contains(handle),
        ensures
            final(self).wf(),
            final(self).spec_entry(handle) == Some(
                Entry { value, modified: stamp, added: stamp },
            ),
            forall|h2: Index|
                h2 != handle ==> (#[trigger] final(self).spec_entry(h2)) == old(self).spec_entry(
                    h2,
                ),
            final(self).spec_len() == old(self).spec_len() + 1,
    {
        proof {
            lemma_find_none_not_exists(self.entries@, handle);
        }
        let ghost s0 = self.entries@;
        self.entries.push((handle, Entry { value, modified: stamp, added: stamp }));
        proof {
            let s1 = self.entries@;
            assert(s1 == s0.push((handle, Entry { value, modified: stamp, added: stamp })));
            lemma_find_present(s1, handle, s0.len() as int);
            assert forall|h2: Index|
                h2 != handle implies (#[trigger] find_entry(s1, h2)) == find_entry(s0, h2) by {
                match find_entry(s0, h2) {
                    Some(e) => {
                        lemma_find_some_exists(s0, h2);
                        let i = choose|i: int|
                            0 <= i < s0.len() && (#[trigger] s0[i].0) == h2 && s0[i].1
                                == find_entry(s0, h2)->Some_0;
                        assert(forall|j: int| 0 <= j < i ==> (#[trigger] s0[j].0) != h2);
                        assert(forall|j: int| 0 <= j < i ==> (#[trigger] s1[j].0) != h2);
                        lemma_find_present(s1, h2, i);
                    },
                    None => {
                        lemma_find_none_not_exists(s0, h2);
                        assert(forall|j: int|
                            0 <= j < s1.len() ==> (#[trigger] s1[j].0) != h2);
                        lemma_find_absent(s1, h2);
                    },
                }
            }
        }
    }

    /// Point update: replaces the value and the write stamp of a live
    /// component; a no-op (not an error) when the component is absent.
    pub fn set(&mut self, handle: Index, value: T, stamp: u64)
        requires
            old(self).wf(),
        ensures
            final(self).wf(),
            match old(self).spec_entry(handle) {
                Some(e) => final(self).spec_entry(handle) == Some(
                    Entry { value, modified: stamp, added: e.added },
                ),
                None => final(self).spec_entry(handle) is None,
            },
            forall|h2: Index|
                h2 != handle ==> (#[trigger] final(self).spec_entry(h2)) == old(self).spec_entry(
                    h2,
                ),
            final(self).spec_len() == old(self).spec_len(),
            forall|i: int|
                0 <= i < final(self).spec_len() ==> (#[trigger] final(self).spec_key_at(i))
                    == old(self).spec_key_at(i),
    {
        match self.find_index(handle) {
            Some(i) => {
                let added = self.entries[i].1.added;
                let ghost s0 = self.entries@;
                self.entries.set(i, (handle, Entry { value, modified: stamp, added }));
                proof {
                    let s1 = self.entries@;
                    let e1 = Entry { value, modified: stamp, added };
                    assert(s1 == s0.update(i as int, (handle, e1)));
                    assert forall|j: int| 0 <= j < s1.len() implies (#[trigger] s1[j].0)
                        == s0[j].0 by {}
                    assert(forall|j: int| 0 <= j < i ==> (#[trigger] s1[j].0) != handle);
                    lemma_find_present(s1, handle, i as int);
                    assert forall|h2: Index|
                        h2 != handle implies (#[trigger] find_entry(s1, h2)) == find_entry(
                        s0,
                        h2,
                    ) by {
                        match find_entry(s0, h2) {
                            Some(e) => {
                                lemma_find_some_exists(s0, h2);
                                let k = choose|k: int|
                                    0 <= k < s0.len() && (#[trigger] s0[k].0) == h2 && s0[k].1
                                        == find_entry(s0, h2)->Some_0;
                                assert(forall|j: int|
                                    0 <= j < k ==> (#[trigger] s0[j].0) != h2);
                                assert(s1[k] == s0[k]);
                                lemma_find_present(s1, h2, k);
                            },
                            None => {
                                lemma_find_none_not_exists(s0, h2);
                                lemma_find_absent(s1, h2);
                            },
                        }
                    }
                }
            },
            None => {},
        }
    }

    /// Removes a component, as on despawn or explicit removal; a no-op
    /// when already absent.
    pub fn remove(&mut self, handle: Index)
        requires
            old(self).wf(),
        ensures
            final(self).wf(),
            final(self).spec_entry(handle) is None,
            forall|h2: Index|
                h2 != handle ==> (#[trigger] final(self).spec_entry(h2)) == old(self).spec_entry(
                    h2,
                ),
            final(self).spec_len() == if old(self).contains(handle) {
                old(self).spec_len() - 1
            } else {
                old(self).spec_len() as int
            },
    {
        match self.find_index(handle) {
            Some(i) => {
                let ghost s0 = self.entries@;
                self.entries.remove(i);
                proof {
                    let s1 = self.entries@;
                    assert(s1 == s0.remove(i as int));
                    assert forall|j: int| 0 <= j < s1.len() implies (#[trigger] s1[j]) == if j
                        < i as int {
                        s0[j]
                    } else {
                        s0[j + 1]
                    } by {}
                    assert forall|j: int| 0 <= j < s1.len() implies (#[trigger] s1[j].0)
                        != handle by {
                        if j < i as int {
                        } else {
                            assert(s1[j] == s0[j + 1]);
                        }
                    }
                    lemma_find_absent(s1, handle);
                    assert forall|h2: Index|
                        h2 != handle implies (#[trigger] find_entry(s1, h2)) == find_entry(
                        s0,
                        h2,
                    ) by {
                        match find_entry(s0, h2) {
                            Some(e) => {
                                lemma_find_some_exists(s0, h2);
                                let k = choose|k: int|
                                    0 <= k < s0.len() && (#[trigger] s0[k].0) == h2 && s0[k].1
                                        == find_entry(s0, h2)->Some_0;
                                assert(forall|j: int|
                                    0 <= j < k ==> (#[trigger] s0[j].0) != h2);
                                if k < i as int {
                                    assert(s1[k] == s0[k]);
                                    lemma_find_present(s1, h2, k);
                                } else {
                                    assert(k > i as int);
                                    assert(s1[k - 1] == s0[k]);
                                    assert forall|j: int|
                                        0 <= j < k - 1 implies (#[trigger] s1[j].0) != h2 by {
                                        if j < i as int {
                                        } else {
                                            assert(s1[j] == s0[j + 1]);
                                        }
                                    }
                                    lemma_find_present(s1, h2, k - 1);
                                }
                            },
                            None => {
                                lemma_find_none_not_exists(s0, h2);
                                assert forall|j: int|
                                    0 <= j < s1.len() implies (#[trigger] s1[j].0) != h2 by {
                                    if j < i as int {
                                    } else {
                                        assert(s1[j] == s0[j + 1]);
                                    }
                                }
                                lemma_find_absent(s1, h2);
                            },
                        }
                    }
                }
            },
            None => {},
        }
    }

    /// Reads the write stamp test: was this component written after
    /// `observed`? Insertion counts as a write.
    pub fn changed_since(&self, handle: Index, observed: u64) -> (r: bool)
        ensures
            r == self.spec_modified_since(handle, observed),
    {
        match self.find_index(handle) {
            Some(i) => self.entries[i].1.modified > observed,
            None => false,
        }
    }

    /// Was this component inserted after `observed`?
    pub fn added_since(&self, handle: Index, observed: u64) -> (r: bool)
        ensures
            r == self.spec_added_since(handle, observed),
    {
        match self.find_index(handle) {
            Some(i) => self.entries[i].1.added > observed,
            None => false,
        }
    }
}

impl<T: Copy> ComponentMap<T> {
    /// In-place mapping of a component: applies `f` to the current value,
    /// stores the first half of its result stamped with `stamp`, and
    /// returns the second half; `None`, and no write, when the component
    /// is absent.
    pub fn map_mut<Res, F: FnOnce(T) -> (T, Res)>(&mut self, handle: Index, f: F, stamp: u64)
        -> (r: Option<Res>)
        requires
            old(self).wf(),
            forall|v: T| old(self).spec_value(handle) == Some(v) ==> call_requires(f, (v,)),
        ensures
            final(self).wf(),
            match old(self).spec_entry(handle) {
                Some(e) => exists|p: (T, Res)|
                    {
                        &&& #[trigger] call_ensures(f, (e.value,), p)
                        &&& final(self).spec_entry(handle) == Some(
                            Entry { value: p.0, modified: stamp, added: e.added },
                        )
                        &&& r == Some(p.1)
                    },
                None => final(self).spec_entry(handle) is None && r is None,
            },
            forall|h2: Index|
                h2 != handle ==> (#[trigger] final(self).spec_entry(h2)) == old(self).spec_entry(
                    h2,
                ),
            final(self).spec_len() == old(self).spec_len(),
    {
        let v0: T;
        match self.get(handle) {
            Some(v) => {
                v0 = *v;
            },
            None => {
                return None;
            },
        }
        let pair = f(v0);
        self.set(handle, pair.0, stamp);
        Some(pair.1)
    }

    /// Visits every live entity carrying this component type exactly once
    /// and returns the visited (handle, value) pairs. The order of the
    /// pairs is unspecified: callers must not depend on it.
    pub fn for_each(&self) -> (r: Vec<(Index, T)>)
        requires
            self.wf(),
        ensures
            r@.len() == self.spec_len(),
            forall|i: int|
                0 <= i < r@.len() ==> self.spec_value(#[trigger] r@[i].0) == Some(r@[i].1),
            forall|i: int, j: int|
                0 <= i < j < r@.len() ==> (#[trigger] r@[i].0) != (#[trigger] r@[j].0),
            forall|h: Index|
                self.contains(h) ==> exists|i: int| 0 <= i < r@.len() && (#[trigger] r@[i].0)
                    == h,
            forall|i: int| 0 <= i < r@.len() ==> (#[trigger] r@[i].0) == self.spec_key_at(i),
    {
        let n = self.entries.len();
        let mut r: Vec<(Index, T)> = Vec::new();
        let mut i: usize = 0;
        while i < n
            invariant
                i <= n,
                n == self.entries@.len(),
                r@.len() == i,
                forall|j: int|
                    0 <= j < i ==> (#[trigger] r@[j]) == (self.entries@[j].0,
                    self.entries@[j].1.value),
            decreases n - i,
        {
            let h = self.entries[i].0;
            let v = self.entries[i].1.value;
            r.push((h, v));
            i += 1;
        }
        proof {
            assert forall|i2: int|
                0 <= i2 < r@.len() implies self.spec_value(#[trigger] r@[i2].0) == Some(
                r@[i2].1,
            ) by {
                assert(forall|j: int|
                    0 <= j < i2 ==> (#[trigger] self.entries@[j].0) != self.entries@[i2].0);
                lemma_find_present(self.entries@, self.entries@[i2].0, i2);
            }
            assert forall|h: Index| self.contains(h) implies exists|i2: int|
                0 <= i2 < r@.len() && (#[trigger] r@[i2].0) == h by {
                lemma_find_some_exists(self.entries@, h);
                let k = choose|k: int|
                    0 <= k < self.entries@.len() && (#[trigger] self.entries@[k].0) == h
                        && self.entries@[k].1 == find_entry(self.entries@, h)->Some_0;
                assert(r@[k].0 == h);
            }
        }
        r
    }
}

} // verus!
