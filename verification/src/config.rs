//! Configuration values for clients, queries and mutations.
//!
//! Every option is wrapped in a [`SetOption`], so each layer of the
//! configuration cascade can either set a value or inherit from the next
//! layer down (see [`resolve`]).

use vstd::prelude::*;

use crate::const_default::ConstDefault;

pub mod error;
pub mod resolve;
pub mod retry;

verus! {

/// A configuration option that is either set here or inherited from the
/// next layer of the cascade.
#[derive(Clone, Copy, Debug, PartialEq, Eq, Structural)]
pub enum SetOption<T> {
    /// Inherit the value from the next, lower-priority configuration layer.
    Inherrit,
    /// Use this value.
    Explicit(T),
}

impl<T: ConstDefault> SetOption<T> {
    /// The default: the wrapped type's own default, set explicitly.
    pub fn const_default() -> (r: Self)
        ensures
            r == SetOption::Explicit(T::spec_default()),
    {
        SetOption::Explicit(T::const_default())
    }
}

impl<T: ConstDefault> ConstDefault for SetOption<T> {
    open spec fn spec_default() -> Self {
        SetOption::Explicit(T::spec_default())
    }

    fn const_default() -> (r: Self) {
        SetOption::<T>::const_default()
    }
}

impl<T> SetOption<T> {
    /// A new option that inherits.
    pub fn inherrit() -> (r: Self)
        ensures
            r == SetOption::<T>::Inherrit,
    {
        SetOption::Inherrit
    }

    /// A new option that uses `value`.
    pub fn set(value: T) -> (r: Self)
        ensures
            r == SetOption::Explicit(value),
    {
        SetOption::Explicit(value)
    }
}

/// How long an inactive cache entry remains cached, in milliseconds.
pub const DEFAULT_CACHE_TIME_MS: u64 = 5 * 60 * 1000;

/// How long an inactive query or mutation remains cached.
#[derive(Clone, Copy, Debug, PartialEq, Eq, Structural)]
pub enum CacheTime {
    /// Remains in the cache until removed explicitly.
    Infinite,
    /// Remains in the cache for this many milliseconds after the last
    /// subscriber is gone.
    Duration(u64),
}

impl CacheTime {
    /// The default cache time: five minutes.
    pub fn const_default() -> (r: Self)
        ensures
            r == CacheTime::Duration(DEFAULT_CACHE_TIME_MS),
    {
        CacheTime::Duration(DEFAULT_CACHE_TIME_MS)
    }
}

impl ConstDefault for CacheTime {
    open spec fn spec_default() -> Self {
        CacheTime::Duration(DEFAULT_CACHE_TIME_MS)
    }

    fn const_default() -> (r: Self) {
        CacheTime::const_default()
    }
}

impl Default for CacheTime {
    fn default() -> (r: Self)
        ensures
            r == CacheTime::spec_default(),
    {
        CacheTime::const_default()
    }
}

/// How a client behaves when connectivity is reported down.
#[derive(Clone, Copy, Debug, PartialEq, Eq, Structural)]
pub enum NetworkMode {
    /// Only execute while there is a connection; otherwise the fetch is
    /// paused until the connection returns.
    Online,
    /// Ignore the reported connectivity.
    Always,
    /// Attempt the first try even while offline, then pause on failure
    /// until the connection returns.
    OfflineFirst,
}

impl NetworkMode {
    /// The default network mode.
    pub fn const_default() -> (r: Self)
        ensures
            r == NetworkMode::Online,
    {
        NetworkMode::Online
    }

    /// Whether a fetch attempt (1-based attempt number `count`) may run
    /// while connectivity is reported down.
    pub open spec fn spec_should_try(self, count: u32) -> bool {
        match self {
            NetworkMode::Always => true,
            NetworkMode::OfflineFirst => count <= 1,
            NetworkMode::Online => false,
        }
    }

    /// Whether attempt number `count` (1-based) may run while offline.
    pub fn should_try(self, count: u32) -> (r: bool)
        ensures
            r == self.spec_should_try(count),
    {
        match self {
            NetworkMode::Always => true,
            NetworkMode::OfflineFirst => count <= 1,
            NetworkMode::Online => false,
        }
    }
}

impl ConstDefault for NetworkMode {
    open spec fn spec_default() -> Self {
        NetworkMode::Online
    }

    fn const_default() -> (r: Self) {
        NetworkMode::const_default()
    }
}

impl Default for NetworkMode {
    fn default() -> (r: Self)
        ensures
            r == NetworkMode::spec_default(),
    {
        NetworkMode::const_default()
    }
}

} // verus!
