//! A map that issues its own keys: inserting a value returns a fresh
//! [`Handle`], which is the only way to address the value later.
//!
//! Handles are never reused, so a handle kept after its entry was removed
//! can never accidentally address another entry.

use vstd::prelude::*;

verus! {

/// A key issued by a [`HandleMap`].
#[derive(Clone, Copy, Debug, PartialEq, Eq, Structural)]
pub struct Handle {
    /// The number this handle was issued as.
    pub id: u64,
}

struct Slot<T> {
    id: u64,
    value: T,
}

/// A map from issued [`Handle`]s to values.
pub struct HandleMap<T> {
    next_id: u64,
    slots: Vec<Slot<T>>,
}

impl<T> HandleMap<T> {
    spec fn is_slot_for(self, i: int, h: Handle) -> bool {
        &&& 0 <= i < self.slots@.len()
        &&& self.slots@[i].id == h.id
    }

    /// Whether `h` currently addresses an entry.
    pub closed spec fn contains(self, h: Handle) -> bool {
        exists|i: int| self.is_slot_for(i, h)
    }

    /// The value addressed by `h`.
    pub closed spec fn value_of(self, h: Handle) -> T
        recommends
            self.contains(h),
    {
        self.slots@[choose|i: int| self.is_slot_for(i, h)].value
    }

    /// The number of entries.
    pub closed spec fn spec_len(self) -> nat {
        self.slots@.len()
    }

    /// The next handle number to be issued; every issued handle is below it.
    pub closed spec fn spec_next(self) -> u64 {
        self.next_id
    }

    spec fn slots_distinct(self) -> bool {
        forall|i: int, j: int|
            #![trigger self.slots@[i], self.slots@[j]]
            0 <= i < self.slots@.len() && 0 <= j < self.slots@.len() && i != j
                ==> self.slots@[i].id != self.slots@[j].id
    }

    /// The map's invariant: distinct handles, all below the next to issue.
    pub closed spec fn wf(self) -> bool {
        &&& self.slots_distinct()
        &&& forall|i: int|
            0 <= i < self.slots@.len() ==> (#[trigger] self.slots@[i]).id < self.next_id
    }

    /// `a` and `b` agree on every entry except the one addressed by `h`.
    pub open spec fn same_entries_except(a: Self, b: Self, h: Handle) -> bool {
        forall|h2: Handle|
            h2 != h ==> #[trigger] a.contains(h2) == b.contains(h2) && (a.contains(h2)
                ==> a.value_of(h2) == b.value_of(h2))
    }

    proof fn lemma_unique_slot(self, h: Handle, i: int, j: int)
        requires
            self.slots_distinct(),
            self.is_slot_for(i, h),
            self.is_slot_for(j, h),
        ensures
            i == j,
    {
    }

    proof fn lemma_value_at(self, h: Handle, i: int)
        requires
            self.slots_distinct(),
            self.is_slot_for(i, h),
        ensures
            self.contains(h),
            self.value_of(h) == self.slots@[i].value,
    {
        let j = choose|j: int| self.is_slot_for(j, h);
        self.lemma_unique_slot(h, i, j);
    }

    /// A new, empty map.
    pub fn new() -> (r: Self)
        ensures
            r.wf(),
            r.spec_len() == 0,
            r.spec_next() == 0,
            forall|h: Handle| !(#[trigger] r.contains(h)),
    {
        HandleMap { next_id: 0, slots: Vec::new() }
    }

    /// The number of entries.
    pub fn len(&self) -> (r: usize)
        ensures
            r == self.spec_len(),
    {
        self.slots.len()
    }

    /// The next handle number to be issued.
    pub fn next_handle_id(&self) -> (r: u64)
        ensures
            r == self.spec_next(),
    {
        self.next_id
    }

    /// Stores `value` under a fresh handle and returns the handle.
    pub fn insert(&mut self, value: T) -> (r: Handle)
        requires
            old(self).wf(),
            old(self).spec_next() < u64::MAX,
        ensures
            final (self).wf(),
            !old(self).contains(r),
            final (self).contains(r),
            final (self).value_of(r) == value,
            final (self).spec_len() == old(self).spec_len() + 1,
            Self::same_entries_except(*final (self), *old(self), r),
    {
        let id = self.next_id;
        self.next_id = self.next_id + 1;
        self.slots.push(Slot { id, value });
        let r = Handle { id };
        proof {
            let pre = *old(self);
            let post = *self;
            let n = pre.slots@.len() as int;
            if pre.contains(r) {
                let i = choose|i: int| pre.is_slot_for(i, r);
                assert(pre.slots@[i].id < pre.next_id);
            }
            assert(post.is_slot_for(n, r));
            post.lemma_value_at(r, n);
            assert forall|h2: Handle| h2 != r implies #[trigger] post.contains(h2) == pre.contains(
                h2,
            ) && (post.contains(h2) ==> post.value_of(h2) == pre.value_of(h2)) by {
                if pre.contains(h2) {
                    let i = choose|i: int| pre.is_slot_for(i, h2);
                    assert(post.is_slot_for(i, h2));
                    post.lemma_value_at(h2, i);
                    pre.lemma_value_at(h2, i);
                }
                if post.contains(h2) {
                    let i = choose|i: int| post.is_slot_for(i, h2);
                    assert(i != n);
                    assert(pre.is_slot_for(i, h2));
                }
            }
        }
        r
    }

    /// Removes the entry addressed by `h`, if any, and returns its value.
    pub fn remove(&mut self, h: Handle) -> (r: Option<T>)
        requires
            old(self).wf(),
        ensures
            final (self).wf(),
            final (self).spec_next() == old(self).spec_next(),
            !final (self).contains(h),
            Self::same_entries_except(*final (self), *old(self), h),
            r == if old(self).contains(h) {
                Some(old(self).value_of(h))
            } else {
                None::<T>
            },
            final (self).spec_len() == if old(self).contains(h) {
                old(self).spec_len() - 1
            } else {
                old(self).spec_len() as int
            },
    {
        let mut i: usize = 0;
        while i < self.slots.len()
            invariant
                old(self).wf(),
                i <= self.slots@.len(),
                forall|j: int| 0 <= j < i ==> (#[trigger] self.slots@[j]).id != h.id,
                *self == *old(self),
            decreases self.slots@.len() - i,
        {
            if self.slots[i].id == h.id {
                proof {
                    old(self).lemma_value_at(h, i as int);
                }
                let slot = self.slots.remove(i);
                proof {
                    let pre = *old(self);
                    let post = *self;
                    assert forall|i2: int, j2: int|
                        0 <= i2 < post.slots@.len() && 0 <= j2 < post.slots@.len() && i2
                            != j2 implies (#[trigger] post.slots@[i2]).id != (
                    #[trigger] post.slots@[j2]).id by {
                        let oi = if i2 < i {
                            i2
                        } else {
                            i2 + 1
                        };
                        let oj = if j2 < i {
                            j2
                        } else {
                            j2 + 1
                        };
                        assert(post.slots@[i2] == pre.slots@[oi]);
                        assert(post.slots@[j2] == pre.slots@[oj]);
                    }
                    assert forall|i2: int| 0 <= i2 < post.slots@.len() implies (
                    #[trigger] post.slots@[i2]).id < post.next_id by {
                        let oi = if i2 < i {
                            i2
                        } else {
                            i2 + 1
                        };
                        assert(post.slots@[i2] == pre.slots@[oi]);
                    }
                    assert forall|i2: int| !(#[trigger] post.is_slot_for(i2, h)) by {
                        if post.is_slot_for(i2, h) {
                            let oi = if i2 < i {
                                i2
                            } else {
                                i2 + 1
                            };
                            assert(pre.is_slot_for(oi, h));
                            pre.lemma_unique_slot(h, oi, i as int);
                        }
                    }
                    assert forall|h2: Handle| h2 != h implies #[trigger] post.contains(h2)
                        == pre.contains(h2) && (post.contains(h2) ==> post.value_of(h2)
                        == pre.value_of(h2)) by {
                        if pre.contains(h2) {
                            let oi = choose|oi: int| pre.is_slot_for(oi, h2);
                            assert(oi != i);
                            let ni = if oi < i {
                                oi
                            } else {
                                oi - 1
                            };
                            assert(post.is_slot_for(ni, h2));
                            post.lemma_value_at(h2, ni);
                            pre.lemma_value_at(h2, oi);
                        }
                        if post.contains(h2) {
                            let ni = choose|ni: int| post.is_slot_for(ni, h2);
                            let oi = if ni < i {
                                ni
                            } else {
                                ni + 1
                            };
                            assert(pre.is_slot_for(oi, h2));
                        }
                    }
                }
                return Some(slot.value);
            }
            i = i + 1;
        }
        proof {
            if self.contains(h) {
                let j = choose|j: int| self.is_slot_for(j, h);
                assert(self.slots@[j].id != h.id);
            }
        }
        None
    }

    /// The value addressed by `h`, if any.
    pub fn get(&self, h: Handle) -> (r: Option<&T>)
        requires
            self.wf(),
        ensures
            match r {
                Some(v) => self.contains(h) && *v == self.value_of(h),
                None => !self.contains(h),
            },
    {
        let mut i: usize = 0;
        while i < self.slots.len()
            invariant
                self.wf(),
                i <= self.slots@.len(),
                forall|j: int| 0 <= j < i ==> (#[trigger] self.slots@[j]).id != h.id,
            decreases self.slots@.len() - i,
        {
            if self.slots[i].id == h.id {
                proof {
                    self.lemma_value_at(h, i as int);
                }
                return Some(&self.slots[i].value);
            }
            i = i + 1;
        }
        None
    }
}

} // verus!
