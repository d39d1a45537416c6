//! The query-side cache: one registry target plus the generation counter
//! that stamps fetch calls.

use vstd::prelude::*;

use crate::query::{FetchMeta, Query};
use crate::status::QueryData;
use crate::weak_link::{Registry, Target, WeakLink};

verus! {

/// The cached query data of one client: entries live in the registry, keyed
/// by this cache's target.
pub struct QueryCache {
    /// The registry target that keys this cache's entries.
    pub target: Target,
    /// The next generation stamp to issue; only ever incremented.
    pub next_gen: u64,
}

impl QueryCache {
    /// The next generation stamp this cache will issue.
    pub open spec fn spec_next_gen(self) -> u64 {
        self.next_gen
    }

    /// The cache's invariant over a registry: every entry is internally
    /// well-formed and carries a stamp below the next to issue.
    pub open spec fn wf_for<R, E>(self, reg: Registry<FetchMeta<R, E>>) -> bool {
        forall|l: WeakLink| #[trigger]
            reg.has_row(l, self.target) ==> reg.row_value(l, self.target).id
                < self.spec_next_gen() && reg.row_value(l, self.target).wf()
    }

    /// A cache keyed by the given target, which should be freshly issued.
    pub fn new(target: Target) -> (r: Self)
        ensures
            r.target == target,
            r.spec_next_gen() == 0,
    {
        QueryCache { target, next_gen: 0 }
    }

    /// Issues the next generation stamp.
    pub fn next_id(&mut self) -> (r: u64)
        requires
            old(self).spec_next_gen() < u64::MAX,
        ensures
            r == old(self).spec_next_gen(),
            final (self).spec_next_gen() == old(self).spec_next_gen() + 1,
            final (self).target == old(self).target,
    {
        let r = self.next_gen;
        self.next_gen = self.next_gen + 1;
        r
    }

    /// The cached state for `query`, if this cache has an entry for it.
    /// Reading has no side effect.
    pub fn data<R, E>(&self, reg: &Registry<FetchMeta<R, E>>, query: &Query) -> (r: Option<
        QueryData<R, E>,
    >)
        requires
            reg.wf(),
        ensures
            match r {
                Some(d) => reg.has_row(query.link, self.target) && d == reg.row_value(
                    query.link,
                    self.target,
                ).data.spec_value(),
                None => !reg.has_row(query.link, self.target),
            },
    {
        match reg.get(query.link, self.target) {
            Some(meta) => Some(meta.data.peek().duplicate()),
            None => None,
        }
    }

    /// Removes the entry for `query` from this cache and returns its cached
    /// state. No other entry, cache, or identity is affected.
    pub fn remove_query<R, E>(&self, reg: &mut Registry<FetchMeta<R, E>>, query: &Query) -> (r:
        Option<QueryData<R, E>>)
        requires
            old(reg).wf(),
        ensures
            final (reg).wf(),
            !final (reg).has_row(query.link, self.target),
            Registry::<FetchMeta<R, E>>::same_assoc_except(
                *final (reg),
                *old(reg),
                query.link,
                self.target,
            ),
            Registry::<FetchMeta<R, E>>::same_alive(*final (reg), *old(reg)),
            r matches Some(d) <==> old(reg).has_row(query.link, self.target),
            r matches Some(d) ==> d == old(reg).row_value(
                query.link,
                self.target,
            ).data.spec_value(),
            self.wf_for(*old(reg)) ==> self.wf_for(*final (reg)),
    {
        let removed = reg.remove(query.link, self.target);
        proof {
            if self.wf_for(*old(reg)) {
                assert forall|l: WeakLink| #[trigger]
                    final (reg).has_row(l, self.target) implies final (reg).row_value(
                    l,
                    self.target,
                ).id < self.spec_next_gen() && final (reg).row_value(l, self.target).wf() by {
                    assert(l != query.link);
                    assert(old(reg).has_row(l, self.target));
                }
            }
        }
        match removed {
            Some(meta) => Some(meta.data.unwrap()),
            None => None,
        }
    }

    /// Called when an eviction timer fires: removes the entry for `link` if
    /// the eviction is still wanted — the entry still exists, it still has
    /// no subscriber, and no newer idle period has begun. Returns whether
    /// the entry was removed.
    pub fn evict_expired<R, E>(&self, reg: &mut Registry<FetchMeta<R, E>>, link: WeakLink, epoch: u64) -> (r:
        bool)
        requires
            old(reg).wf(),
        ensures
            final (reg).wf(),
            r == (old(reg).has_row(link, self.target) && old(reg).row_value(
                link,
                self.target,
            ).cache_control.should_evict_at(epoch)),
            r ==> !final (reg).has_row(link, self.target),
            !r ==> *final (reg) == *old(reg),
            Registry::<FetchMeta<R, E>>::same_assoc_except(
                *final (reg),
                *old(reg),
                link,
                self.target,
            ),
            Registry::<FetchMeta<R, E>>::same_alive(*final (reg), *old(reg)),
            self.wf_for(*old(reg)) ==> self.wf_for(*final (reg)),
    {
        let evict = match reg.get(link, self.target) {
            Some(meta) => meta.cache_control.should_evict(epoch),
            None => false,
        };
        if evict {
            let _ = reg.remove(link, self.target);
            proof {
                if self.wf_for(*old(reg)) {
                    assert forall|l: WeakLink| #[trigger]
                        final (reg).has_row(l, self.target) implies final (reg).row_value(
                        l,
                        self.target,
                    ).id < self.spec_next_gen() && final (reg).row_value(l, self.target).wf() by {
                        assert(l != link);
                        assert(old(reg).has_row(l, self.target));
                    }
                }
            }
            true
        } else {
            false
        }
    }
}

} // verus!
