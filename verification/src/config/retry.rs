//! How failed queries and mutations are retried, and how long to wait
//! between attempts.
//!
//! A policy or delay may also be an arbitrary function of the failure count
//! and the error value; such a function lives with the caller, which
//! evaluates it and hands its verdict to [`RetryConfig::retry_delay`].

use vstd::prelude::*;

use crate::const_default::ConstDefault;

verus! {

/// Whether a failed attempt is retried.
///
/// The default retries three times.
#[derive(Clone, Copy, Debug, PartialEq, Eq, Structural)]
pub enum RetryPolicy {
    /// Retry when a caller-supplied predicate of the failure count and the
    /// error says so; the predicate's verdict is the `func_retry` argument
    /// of [`RetryConfig::retry_delay`].
    Func,
    /// Retry without bound.
    Infinite,
    /// Retry this many times after the first failure (so `n + 1` total
    /// attempts before giving up).
    Num(u32),
}

impl RetryPolicy {
    /// The default policy: three retries.
    pub fn const_default() -> (r: Self)
        ensures
            r == RetryPolicy::Num(3),
    {
        RetryPolicy::Num(3)
    }
}

impl ConstDefault for RetryPolicy {
    open spec fn spec_default() -> Self {
        RetryPolicy::Num(3)
    }

    fn const_default() -> (r: Self) {
        RetryPolicy::const_default()
    }
}

impl Default for RetryPolicy {
    fn default() -> (r: Self)
        ensures
            r == RetryPolicy::spec_default(),
    {
        RetryPolicy::const_default()
    }
}

/// How long to wait before a retry, in milliseconds.
///
/// The default doubles a one-second delay up to a thirty-second maximum.
#[derive(Clone, Copy, Debug, PartialEq, Eq, Structural)]
pub enum RetryDelay {
    /// Double the wait after every failure.
    Backoff {
        /// The wait before the first retry, doubled for each further failure.
        initial: u64,
        /// Never wait longer than this.
        maximum: u64,
    },
    /// Always wait the same time.
    Always(u64),
    /// Wait as long as a caller-supplied function of the failure count and
    /// the error says; the function's result is the `func_delay` argument of
    /// [`RetryConfig::retry_delay`].
    DelayFn,
}

/// The default initial backoff delay, in milliseconds.
pub const DEFAULT_RETRY_INITIAL_MS: u64 = 1000;

/// The default maximum backoff delay, in milliseconds.
pub const DEFAULT_RETRY_MAXIMUM_MS: u64 = 30 * 1000;

impl RetryDelay {
    /// The default delay: backoff from one second up to thirty seconds.
    pub fn const_default() -> (r: Self)
        ensures
            r == RetryDelay::spec_default(),
    {
        RetryDelay::Backoff { initial: DEFAULT_RETRY_INITIAL_MS, maximum: DEFAULT_RETRY_MAXIMUM_MS }
    }
}

impl ConstDefault for RetryDelay {
    open spec fn spec_default() -> Self {
        RetryDelay::Backoff { initial: DEFAULT_RETRY_INITIAL_MS, maximum: DEFAULT_RETRY_MAXIMUM_MS }
    }

    fn const_default() -> (r: Self) {
        RetryDelay::const_default()
    }
}

impl Default for RetryDelay {
    fn default() -> (r: Self)
        ensures
            r == RetryDelay::spec_default(),
    {
        RetryDelay::const_default()
    }
}

/// Two raised to `exp`, saturated at `u64::MAX`.
pub open spec fn pow2_saturated(exp: nat) -> u64
    decreases exp,
{
    if exp == 0 {
        1
    } else if pow2_saturated((exp - 1) as nat) > u64::MAX / 2 {
        u64::MAX
    } else {
        (2 * pow2_saturated((exp - 1) as nat)) as u64
    }
}

/// `a * b`, saturated at `u64::MAX`.
pub open spec fn mul_saturated(a: u64, b: u64) -> u64 {
    if a * b > u64::MAX {
        u64::MAX
    } else {
        (a * b) as u64
    }
}

/// The exponential-backoff delay before the retry after failure number
/// `failure_count` (1-based): `initial * 2^(failure_count - 1)`, but never
/// more than `maximum`.
pub open spec fn spec_backoff_delay(initial: u64, maximum: u64, failure_count: u32) -> u64 {
    let exp = if failure_count == 0 { 0nat } else { (failure_count - 1) as nat };
    let unclamped = mul_saturated(initial, pow2_saturated(exp));
    if unclamped < maximum {
        unclamped
    } else {
        maximum
    }
}

/// How queries and mutations are retried.
#[derive(Clone, Copy, Debug, PartialEq, Eq, Structural)]
pub struct RetryConfig {
    /// Whether to retry at all.
    pub policy: RetryPolicy,
    /// How long to wait between attempts.
    pub delay: RetryDelay,
}

/// The wait before the next retry, if the policy authorizes one.
///
/// `func_retry` stands for the caller-evaluated predicate of a
/// [`RetryPolicy::Func`] policy and is consulted for no other policy;
/// `func_delay` stands likewise for a [`RetryDelay::DelayFn`] delay.
pub open spec fn spec_retry_delay(
    cfg: RetryConfig,
    failure_count: u32,
    func_retry: bool,
    func_delay: u64,
) -> Option<u64> {
    let authorized = match cfg.policy {
        RetryPolicy::Func => func_retry,
        RetryPolicy::Infinite => true,
        RetryPolicy::Num(n) => failure_count <= n,
    };
    if authorized {
        Some(
            match cfg.delay {
                RetryDelay::Backoff { initial, maximum } => spec_backoff_delay(
                    initial,
                    maximum,
                    failure_count,
                ),
                RetryDelay::Always(d) => d,
                RetryDelay::DelayFn => func_delay,
            },
        )
    } else {
        None
    }
}

impl ConstDefault for RetryConfig {
    open spec fn spec_default() -> Self {
        RetryConfig { policy: RetryPolicy::spec_default(), delay: RetryDelay::spec_default() }
    }

    fn const_default() -> (r: Self) {
        RetryConfig::const_default()
    }
}

impl Default for RetryConfig {
    fn default() -> (r: Self)
        ensures
            r == RetryConfig::spec_default(),
    {
        RetryConfig::const_default()
    }
}

impl RetryConfig {
    /// The default configuration: three retries, backoff from one second up
    /// to thirty seconds.
    pub fn const_default() -> (r: Self)
        ensures
            r == RetryConfig::spec_default(),
    {
        RetryConfig { policy: RetryPolicy::const_default(), delay: RetryDelay::const_default() }
    }

    /// A configuration that never retries; the delay is the default.
    pub fn none() -> (r: Self)
        ensures
            r == (RetryConfig { policy: RetryPolicy::Num(0), delay: RetryDelay::spec_default() }),
    {
        RetryConfig { policy: RetryPolicy::Num(0), delay: RetryDelay::const_default() }
    }

    /// This configuration with the policy set to retry without bound.
    pub fn infinite(self) -> (r: Self)
        ensures
            r == (RetryConfig { policy: RetryPolicy::Infinite, ..self }),
    {
        RetryConfig { policy: RetryPolicy::Infinite, ..self }
    }

    /// This configuration with the policy set to `num` retries.
    pub fn num(self, num: u32) -> (r: Self)
        ensures
            r == (RetryConfig { policy: RetryPolicy::Num(num), ..self }),
    {
        RetryConfig { policy: RetryPolicy::Num(num), ..self }
    }

    /// This configuration with the policy set to a caller-evaluated
    /// predicate (see [`RetryPolicy::Func`]).
    pub fn policy_fn(self) -> (r: Self)
        ensures
            r == (RetryConfig { policy: RetryPolicy::Func, ..self }),
    {
        RetryConfig { policy: RetryPolicy::Func, ..self }
    }

    /// This configuration with the delay set to backoff between `initial`
    /// and `maximum` milliseconds.
    pub fn backoff(self, initial: u64, maximum: u64) -> (r: Self)
        ensures
            r == (RetryConfig { delay: RetryDelay::Backoff { initial, maximum }, ..self }),
    {
        RetryConfig { delay: RetryDelay::Backoff { initial, maximum }, ..self }
    }

    /// This configuration with the delay set to always `duration`
    /// milliseconds.
    pub fn always(self, duration: u64) -> (r: Self)
        ensures
            r == (RetryConfig { delay: RetryDelay::Always(duration), ..self }),
    {
        RetryConfig { delay: RetryDelay::Always(duration), ..self }
    }

    /// This configuration with the delay set to a caller-evaluated function
    /// (see [`RetryDelay::DelayFn`]).
    pub fn delay_fn(self) -> (r: Self)
        ensures
            r == (RetryConfig { delay: RetryDelay::DelayFn, ..self }),
    {
        RetryConfig { delay: RetryDelay::DelayFn, ..self }
    }

    /// The wait in milliseconds before the next retry after failure number
    /// `failure_count` (1-based), or `None` when the policy does not
    /// authorize another attempt.
    ///
    /// `func_retry` must be the verdict of the caller's retry predicate for
    /// this failure when the policy is [`RetryPolicy::Func`]; it is ignored
    /// otherwise. `func_delay` must be the caller's computed delay when the
    /// delay is [`RetryDelay::DelayFn`]; it is ignored otherwise.
    pub fn retry_delay(&self, failure_count: u32, func_retry: bool, func_delay: u64) -> (r: Option<
        u64,
    >)
        ensures
            r == spec_retry_delay(*self, failure_count, func_retry, func_delay),
    {
        let authorized = match self.policy {
            RetryPolicy::Func => func_retry,
            RetryPolicy::Infinite => true,
            RetryPolicy::Num(n) => failure_count <= n,
        };
        if !authorized {
            return None;
        }
        Some(
            match self.delay {
                RetryDelay::Backoff { initial, maximum } => backoff_delay(
                    initial,
                    maximum,
                    failure_count,
                ),
                RetryDelay::Always(d) => d,
                RetryDelay::DelayFn => func_delay,
            },
        )
    }
}

/// The exponential-backoff delay, computed as [`spec_backoff_delay`] says.
pub fn backoff_delay(initial: u64, maximum: u64, failure_count: u32) -> (r: u64)
    ensures
        r == spec_backoff_delay(initial, maximum, failure_count),
{
    let exp: u32 = if failure_count == 0 {
        0
    } else {
        failure_count - 1
    };
    let mut factor: u64 = 1;
    let mut i: u32 = 0;
    while i < exp
        invariant
            i <= exp,
            factor == pow2_saturated(i as nat),
        decreases exp - i,
    {
        if factor > u64::MAX / 2 {
            factor = u64::MAX;
        } else {
            factor = 2 * factor;
        }
        i = i + 1;
    }
    let unclamped = match initial.checked_mul(factor) {
        Some(p) => p,
        None => u64::MAX,
    };
    if unclamped < maximum {
        unclamped
    } else {
        maximum
    }
}

/// With a policy of `Num(n)` retries, the retry after failure number
/// `failure_count` is authorized exactly when `failure_count <= n`: a
/// query whose function always fails is attempted `n + 1` times in all,
/// and no more.
pub proof fn lemma_retry_num_exhausts(
    cfg: RetryConfig,
    n: u32,
    failure_count: u32,
    func_retry: bool,
    func_delay: u64,
)
    requires
        cfg.policy == RetryPolicy::Num(n),
    ensures
        spec_retry_delay(cfg, failure_count, func_retry, func_delay) is Some <==> failure_count
            <= n,
{
}

/// While the doubled delay stays below both the cap and the saturation
/// bound, each retry waits exactly twice as long as the one before it.
pub proof fn lemma_backoff_doubles(initial: u64, maximum: u64, failure_count: u32)
    requires
        1 <= failure_count,
        failure_count < u32::MAX,
        2 * spec_backoff_delay(initial, maximum, failure_count) < maximum,
        pow2_saturated((failure_count - 1) as nat) <= u64::MAX / 2,
        initial * pow2_saturated(failure_count as nat) <= u64::MAX,
    ensures
        spec_backoff_delay(initial, maximum, (failure_count + 1) as u32) == 2 * spec_backoff_delay(
            initial,
            maximum,
            failure_count,
        ),
{
    let e = (failure_count - 1) as nat;
    assert(pow2_saturated((e + 1) as nat) == 2 * pow2_saturated(e));
    assert(initial * (2 * pow2_saturated(e)) == 2 * (initial * pow2_saturated(e)))
        by (nonlinear_arith);
}

} // verus!
