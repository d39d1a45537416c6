//! The eviction controller: a debounced idle-timeout state machine that
//! decides when a cache entry with no subscribers is removed.
//!
//! The controller itself never sleeps; when an idle period begins it hands
//! out an [`EvictionTimer`], and whoever runs the timer calls back after the
//! delay with the timer's epoch. A timer whose epoch is no longer current,
//! or that fires after a subscriber returned, evicts nothing — so rapid
//! active/inactive flips can never evict through a stale timer.

use vstd::prelude::*;

use crate::config::CacheTime;

pub mod mutation;
pub mod query;

verus! {

/// A request to run one eviction timer: wait `delay_ms`, then ask the entry
/// whether the eviction with this `epoch` is still wanted.
#[derive(Clone, Copy, Debug, PartialEq, Eq, Structural)]
pub struct EvictionTimer {
    /// Identifies the idle period this timer belongs to.
    pub epoch: u64,
    /// The idle duration in milliseconds.
    pub delay_ms: u64,
}

/// The idle-eviction state of one cache entry.
#[derive(Clone, Copy, Debug, PartialEq, Eq, Structural)]
pub struct CacheControl {
    cache_time: CacheTime,
    active: bool,
    armed: bool,
    epoch: u64,
}

impl CacheControl {
    /// The cache time this controller was created with.
    pub closed spec fn spec_cache_time(self) -> CacheTime {
        self.cache_time
    }

    /// Whether the entry has at least one subscriber.
    pub closed spec fn is_active(self) -> bool {
        self.active
    }

    /// The epoch of the most recently started idle period.
    pub closed spec fn spec_epoch(self) -> u64 {
        self.epoch
    }

    /// Whether a timer that fires now with epoch `epoch` must evict the
    /// entry: an idle timer is armed, no subscriber has returned, and the
    /// timer belongs to the current idle period.
    pub closed spec fn should_evict_at(self, epoch: u64) -> bool {
        self.armed && !self.active && epoch == self.epoch
    }

    /// The controller's invariant: a timer is armed only under a finite
    /// cache time.
    pub closed spec fn wf(self) -> bool {
        self.armed ==> self.cache_time is Duration
    }

    /// A controller for a freshly created, not yet subscribed entry. Under a
    /// finite cache time the idle timer starts immediately: if nobody
    /// subscribes, the entry is evicted after one idle period.
    pub fn new(cache_time: CacheTime) -> (r: (Self, Option<EvictionTimer>))
        ensures
            r.0.wf(),
            !r.0.is_active(),
            r.0.spec_cache_time() == cache_time,
            match cache_time {
                CacheTime::Duration(d) => r.1 == Some(
                    EvictionTimer { epoch: r.0.spec_epoch(), delay_ms: d },
                ) && r.0.should_evict_at(r.0.spec_epoch()),
                CacheTime::Infinite => r.1 is None,
            },
            forall|e: u64| #[trigger]
                r.0.should_evict_at(e) ==> cache_time is Duration && e == r.0.spec_epoch(),
    {
        match cache_time {
            CacheTime::Duration(d) => {
                let cc = CacheControl { cache_time, active: false, armed: true, epoch: 1 };
                (cc, Some(EvictionTimer { epoch: 1, delay_ms: d }))
            },
            CacheTime::Infinite => {
                (CacheControl { cache_time, active: false, armed: false, epoch: 0 }, None)
            },
        }
    }

    /// Whether the entry has at least one subscriber.
    pub fn active(&self) -> (r: bool)
        ensures
            r == self.is_active(),
    {
        self.active
    }

    /// The epoch of the most recently started idle period.
    pub fn epoch(&self) -> (r: u64)
        ensures
            r == self.spec_epoch(),
    {
        self.epoch
    }

    /// Whether a timer that fires now with epoch `epoch` must evict.
    pub fn should_evict(&self, epoch: u64) -> (r: bool)
        ensures
            r == self.should_evict_at(epoch),
    {
        self.armed && !self.active && epoch == self.epoch
    }

    /// Records whether the entry has subscribers.
    ///
    /// Becoming active cancels any pending idle timer. Becoming inactive
    /// starts a new idle period and hands out its timer (under a finite
    /// cache time); every timer of an earlier period is thereby stale.
    /// Setting the state it already has changes nothing.
    pub fn set_active(&mut self, active: bool) -> (timer: Option<EvictionTimer>)
        requires
            old(self).wf(),
            !active ==> old(self).spec_epoch() < u64::MAX,
        ensures
            final (self).wf(),
            final (self).is_active() == active,
            final (self).spec_cache_time() == old(self).spec_cache_time(),
            active ==> forall|e: u64| !(#[trigger] final (self).should_evict_at(e)),
            active ==> timer is None,
            active == old(self).is_active() ==> *final (self) == *old(self) && timer is None,
            !active && old(self).is_active() ==> match old(self).spec_cache_time() {
                CacheTime::Duration(d) => {
                    &&& timer == Some(
                        EvictionTimer { epoch: final (self).spec_epoch(), delay_ms: d },
                    )
                    &&& final (self).spec_epoch() > old(self).spec_epoch()
                    &&& forall|e: u64| #[trigger]
                        final (self).should_evict_at(e) <==> e == final (self).spec_epoch()
                },
                CacheTime::Infinite => timer is None && forall|e: u64|
                    !(#[trigger] final (self).should_evict_at(e)),
            },
    {
        if active == self.active {
            return None;
        }
        self.active = active;
        if active {
            self.armed = false;
            return None;
        }
        match self.cache_time {
            CacheTime::Duration(d) => {
                self.epoch = self.epoch + 1;
                self.armed = true;
                Some(EvictionTimer { epoch: self.epoch, delay_ms: d })
            },
            CacheTime::Infinite => None,
        }
    }

    /// An entry with a subscriber is never evicted, whatever timers are
    /// still in flight: eviction asks the controller at firing time, and an
    /// active controller refuses every epoch.
    pub proof fn lemma_active_never_evicts(self, epoch: u64)
        requires
            self.is_active(),
        ensures
            !self.should_evict_at(epoch),
    {
    }
}

} // verus!
