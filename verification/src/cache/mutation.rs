//! The mutation-side cache: one registry target plus the generation counter
//! that stamps entries.

use vstd::prelude::*;

use crate::mutation::{MutateMeta, Mutation};
use crate::status::MutationData;
use crate::weak_link::{Registry, Target, WeakLink};

verus! {

/// The cached mutation data of one client: entries live in the registry,
/// keyed by this cache's target.
pub struct MutationCache {
    /// The registry target that keys this cache's entries.
    pub target: Target,
    /// The next generation stamp to issue; only ever incremented.
    pub next_gen: u64,
}

impl MutationCache {
    /// The next generation stamp this cache will issue.
    pub open spec fn spec_next_gen(self) -> u64 {
        self.next_gen
    }

    /// The cache's invariant over a registry: every entry is internally
    /// well-formed and carries a stamp below the next to issue.
    pub open spec fn wf_for<R, E>(self, reg: Registry<MutateMeta<R, E>>) -> bool {
        forall|l: WeakLink| #[trigger]
            reg.has_row(l, self.target) ==> reg.row_value(l, self.target).id
                < self.spec_next_gen() && reg.row_value(l, self.target).wf()
    }

    /// A cache keyed by the given target, which should be freshly issued.
    pub fn new(target: Target) -> (r: Self)
        ensures
            r.target == target,
            r.spec_next_gen() == 0,
    {
        MutationCache { target, next_gen: 0 }
    }

    /// Issues the next generation stamp.
    pub fn next_id(&mut self) -> (r: u64)
        requires
            old(self).spec_next_gen() < u64::MAX,
        ensures
            r == old(self).spec_next_gen(),
            final (self).spec_next_gen() == old(self).spec_next_gen() + 1,
            final (self).target == old(self).target,
    {
        let r = self.next_gen;
        self.next_gen = self.next_gen + 1;
        r
    }

    /// The cached state for `mutation`, if this cache has an entry for it.
    /// Reading has no side effect.
    pub fn data<R, E>(&self, reg: &Registry<MutateMeta<R, E>>, mutation: &Mutation) -> (r: Option<
        MutationData<R, E>,
    >)
        requires
            reg.wf(),
        ensures
            match r {
                Some(d) => reg.has_row(mutation.link, self.target) && d == reg.row_value(
                    mutation.link,
                    self.target,
                ).data.spec_value(),
                None => !reg.has_row(mutation.link, self.target),
            },
    {
        match reg.get(mutation.link, self.target) {
            Some(meta) => Some(meta.data.peek().duplicate()),
            None => None,
        }
    }

    /// Removes the entry for `mutation` from this cache and returns its
    /// cached state. No other entry, cache, or identity is affected.
    pub fn remove_mutation<R, E>(&self, reg: &mut Registry<MutateMeta<R, E>>, mutation: &Mutation) -> (r:
        Option<MutationData<R, E>>)
        requires
            old(reg).wf(),
        ensures
            final (reg).wf(),
            !final (reg).has_row(mutation.link, self.target),
            Registry::<MutateMeta<R, E>>::same_assoc_except(
                *final (reg),
                *old(reg),
                mutation.link,
                self.target,
            ),
            Registry::<MutateMeta<R, E>>::same_alive(*final (reg), *old(reg)),
            r matches Some(d) <==> old(reg).has_row(mutation.link, self.target),
            r matches Some(d) ==> d == old(reg).row_value(
                mutation.link,
                self.target,
            ).data.spec_value(),
            self.wf_for(*old(reg)) ==> self.wf_for(*final (reg)),
    {
        let removed = reg.remove(mutation.link, self.target);
        proof {
            if self.wf_for(*old(reg)) {
                assert forall|l: WeakLink| #[trigger]
                    final (reg).has_row(l, self.target) implies final (reg).row_value(
                    l,
                    self.target,
                ).id < self.spec_next_gen() && final (reg).row_value(l, self.target).wf() by {
                    assert(l != mutation.link);
                    assert(old(reg).has_row(l, self.target));
                }
            }
        }
        match removed {
            Some(meta) => Some(meta.data.unwrap()),
            None => None,
        }
    }

    /// Called when an eviction timer fires: removes the entry for `link` if
    /// the eviction is still wanted. Returns whether the entry was removed.
    pub fn evict_expired<R, E>(&self, reg: &mut Registry<MutateMeta<R, E>>, link: WeakLink, epoch: u64) -> (r:
        bool)
        requires
            old(reg).wf(),
        ensures
            final (reg).wf(),
            r == (old(reg).has_row(link, self.target) && old(reg).row_value(
                link,
                self.target,
            ).cache_control.should_evict_at(epoch)),
            r ==> !final (reg).has_row(link, self.target),
            !r ==> *final (reg) == *old(reg),
            Registry::<MutateMeta<R, E>>::same_assoc_except(
                *final (reg),
                *old(reg),
                link,
                self.target,
            ),
            Registry::<MutateMeta<R, E>>::same_alive(*final (reg), *old(reg)),
            self.wf_for(*old(reg)) ==> self.wf_for(*final (reg)),
    {
        let evict = match reg.get(link, self.target) {
            Some(meta) => meta.cache_control.should_evict(epoch),
            None => false,
        };
        if evict {
            let _ = reg.remove(link, self.target);
            proof {
                if self.wf_for(*old(reg)) {
                    assert forall|l: WeakLink| #[trigger]
                        final (reg).has_row(l, self.target) implies final (reg).row_value(
                        l,
                        self.target,
                    ).id < self.spec_next_gen() && final (reg).row_value(l, self.target).wf() by {
                        assert(l != link);
                        assert(old(reg).has_row(l, self.target));
                    }
                }
            }
            true
        } else {
            false
        }
    }
}

} // verus!
