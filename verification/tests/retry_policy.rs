//! Retry policies and the backoff formula.

use sycamore_query::config::retry::{RetryConfig, RetryDelay, RetryPolicy};

#[test]
fn default_retry_config() {
    let cfg = RetryConfig::const_default();
    assert_eq!(cfg.policy, RetryPolicy::Num(3));
    assert_eq!(cfg.delay, RetryDelay::Backoff { initial: 1000, maximum: 30000 });
    assert_eq!(cfg, RetryConfig::default());
}

#[test]
fn num_policy_authorizes_exactly_n_retries() {
    // Num(2): the retries after failures 1 and 2 are authorized, the one
    // after failure 3 is not — three attempts in all.
    let cfg = RetryConfig::const_default().num(2);
    assert_eq!(cfg.retry_delay(1, false, 0), Some(1000));
    assert_eq!(cfg.retry_delay(2, false, 0), Some(2000));
    assert_eq!(cfg.retry_delay(3, false, 0), None);
}

#[test]
fn backoff_doubles_up_to_the_maximum() {
    let cfg = RetryConfig::const_default().infinite();
    assert_eq!(cfg.retry_delay(1, false, 0), Some(1000));
    assert_eq!(cfg.retry_delay(2, false, 0), Some(2000));
    assert_eq!(cfg.retry_delay(3, false, 0), Some(4000));
    assert_eq!(cfg.retry_delay(4, false, 0), Some(8000));
    assert_eq!(cfg.retry_delay(5, false, 0), Some(16000));
    // 1000 * 2^5 = 32000 would exceed the 30 s cap
    assert_eq!(cfg.retry_delay(6, false, 0), Some(30000));
    assert_eq!(cfg.retry_delay(60, false, 0), Some(30000));
}

#[test]
fn backoff_saturates_instead_of_overflowing() {
    let cfg = RetryConfig::const_default().infinite().backoff(u64::MAX, u64::MAX);
    assert_eq!(cfg.retry_delay(1, false, 0), Some(u64::MAX));
    assert_eq!(cfg.retry_delay(2, false, 0), Some(u64::MAX));
    assert_eq!(cfg.retry_delay(100, false, 0), Some(u64::MAX));

    let zero = RetryConfig::const_default().infinite().backoff(0, 30000);
    assert_eq!(zero.retry_delay(5, false, 0), Some(0));
}

#[test]
fn none_never_retries() {
    let cfg = RetryConfig::none();
    assert_eq!(cfg.retry_delay(1, false, 0), None);
    assert_eq!(cfg.policy, RetryPolicy::Num(0));
}

#[test]
fn func_policy_follows_the_predicate_verdict() {
    let cfg = RetryConfig::const_default().policy_fn().always(500);
    assert_eq!(cfg.retry_delay(1, true, 0), Some(500));
    assert_eq!(cfg.retry_delay(1, false, 0), None);
    assert_eq!(cfg.retry_delay(7, true, 0), Some(500));
}

#[test]
fn delay_fn_uses_the_caller_computed_delay() {
    let cfg = RetryConfig::const_default().infinite().delay_fn();
    assert_eq!(cfg.retry_delay(1, false, 123), Some(123));
    assert_eq!(cfg.retry_delay(2, false, 456), Some(456));
}

#[test]
fn always_delay_is_constant() {
    let cfg = RetryConfig::const_default().num(5).always(250);
    assert_eq!(cfg.retry_delay(1, false, 0), Some(250));
    assert_eq!(cfg.retry_delay(5, false, 0), Some(250));
    assert_eq!(cfg.retry_delay(6, false, 0), None);
}
