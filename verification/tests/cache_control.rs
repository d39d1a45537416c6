//! The eviction controller: idle timers, cancellation by reactivation, and
//! epoch-based staleness of timers.

use sycamore_query::cache::CacheControl;
use sycamore_query::config::CacheTime;

#[test]
fn fresh_controller_arms_an_idle_timer() {
    let (cc, timer) = CacheControl::new(CacheTime::Duration(100));
    let timer = timer.unwrap();
    assert_eq!(timer.delay_ms, 100);
    assert!(!cc.active());
    assert!(cc.should_evict(timer.epoch));
    assert!(!cc.should_evict(timer.epoch + 1));
}

#[test]
fn infinite_cache_time_never_arms() {
    let (mut cc, timer) = CacheControl::new(CacheTime::Infinite);
    assert!(timer.is_none());
    assert!(!cc.should_evict(0));
    assert!(!cc.should_evict(1));
    let t1 = cc.set_active(true);
    assert!(t1.is_none());
    let t2 = cc.set_active(false);
    assert!(t2.is_none());
    assert!(!cc.should_evict(0));
    assert!(!cc.should_evict(1));
}

#[test]
fn reactivation_cancels_the_pending_timer() {
    let (mut cc, timer) = CacheControl::new(CacheTime::Duration(100));
    let timer = timer.unwrap();
    // a subscriber arrives before the timer fires
    assert!(cc.set_active(true).is_none());
    assert!(cc.active());
    // the old timer now evicts nothing
    assert!(!cc.should_evict(timer.epoch));
}

#[test]
fn each_idle_period_gets_a_fresh_epoch() {
    let (mut cc, timer) = CacheControl::new(CacheTime::Duration(100));
    let first = timer.unwrap();
    cc.set_active(true);
    let second = cc.set_active(false).unwrap();
    assert_eq!(second.delay_ms, 100);
    assert_ne!(first.epoch, second.epoch);
    // only the latest idle period's timer may evict
    assert!(!cc.should_evict(first.epoch));
    assert!(cc.should_evict(second.epoch));
}

#[test]
fn setting_the_same_state_changes_nothing() {
    let (mut cc, timer) = CacheControl::new(CacheTime::Duration(100));
    let first = timer.unwrap();
    // already inactive: no new timer, the old epoch stays current
    assert!(cc.set_active(false).is_none());
    assert!(cc.should_evict(first.epoch));
    cc.set_active(true);
    // already active
    assert!(cc.set_active(true).is_none());
    assert!(cc.active());
}
