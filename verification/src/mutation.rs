//! Mutation identities and their per-mutation configuration.
//!
//! A [`Mutation`] is the stable identity of one logical write. The
//! asynchronous function that performs the write, and the lifecycle
//! callbacks around it, live with the caller; the engine decides what to
//! publish and what to hand back.

use vstd::prelude::*;

use crate::cache::CacheControl;
use crate::config::retry::RetryConfig;
use crate::config::{CacheTime, NetworkMode, SetOption};
use crate::const_default::ConstDefault;
use crate::listenable::Listenable;
use crate::query::QueryOpts;
use crate::status::MutationData;
use crate::weak_link::WeakLink;

verus! {

/// Per-mutation configuration; anything left to inherit falls through to
/// the client (see [`crate::config::resolve`]).
#[derive(Clone, Copy, Debug, PartialEq, Eq, Structural)]
pub struct MutationOpts {
    /// How long the entry stays cached while unused.
    pub cache_time: SetOption<CacheTime>,
    /// How offline periods are treated.
    pub network_mode: SetOption<NetworkMode>,
    /// How failures are retried.
    pub retry: SetOption<RetryConfig>,
}

impl MutationOpts {
    /// Options that inherit everything.
    pub fn new() -> (r: Self)
        ensures
            r == (MutationOpts {
                cache_time: SetOption::Inherrit,
                network_mode: SetOption::Inherrit,
                retry: SetOption::Inherrit,
            }),
    {
        MutationOpts {
            cache_time: SetOption::Inherrit,
            network_mode: SetOption::Inherrit,
            retry: SetOption::Inherrit,
        }
    }

    /// Options that set every value to its process default.
    pub fn const_default() -> (r: Self)
        ensures
            r == MutationOpts::spec_default(),
    {
        MutationOpts {
            cache_time: SetOption::Explicit(CacheTime::const_default()),
            network_mode: SetOption::Explicit(NetworkMode::const_default()),
            retry: SetOption::Explicit(RetryConfig::const_default()),
        }
    }

    /// These options with the cache time set.
    pub fn set_cache_time(self, cache_time: CacheTime) -> (r: Self)
        ensures
            r == (MutationOpts { cache_time: SetOption::Explicit(cache_time), ..self }),
    {
        MutationOpts { cache_time: SetOption::Explicit(cache_time), ..self }
    }

    /// These options with the network mode set.
    pub fn set_network_mode(self, network_mode: NetworkMode) -> (r: Self)
        ensures
            r == (MutationOpts { network_mode: SetOption::Explicit(network_mode), ..self }),
    {
        MutationOpts { network_mode: SetOption::Explicit(network_mode), ..self }
    }

    /// These options with the retry configuration set.
    pub fn set_retry(self, retry: RetryConfig) -> (r: Self)
        ensures
            r == (MutationOpts { retry: SetOption::Explicit(retry), ..self }),
    {
        MutationOpts { retry: SetOption::Explicit(retry), ..self }
    }
}

impl ConstDefault for MutationOpts {
    open spec fn spec_default() -> Self {
        MutationOpts {
            cache_time: SetOption::Explicit(CacheTime::spec_default()),
            network_mode: SetOption::Explicit(NetworkMode::spec_default()),
            retry: SetOption::Explicit(RetryConfig::spec_default()),
        }
    }

    fn const_default() -> (r: Self) {
        MutationOpts::const_default()
    }
}

impl Default for MutationOpts {
    fn default() -> (r: Self)
        ensures
            r == MutationOpts::spec_default(),
    {
        MutationOpts::const_default()
    }
}

impl From<QueryOpts> for MutationOpts {
    fn from(value: QueryOpts) -> (r: Self) {
        MutationOpts {
            cache_time: value.cache_time,
            network_mode: value.network_mode,
            retry: value.retry,
        }
    }
}

impl vstd::std_specs::convert::FromSpecImpl<QueryOpts> for MutationOpts {
    open spec fn obeys_from_spec() -> bool {
        true
    }

    open spec fn from_spec(value: QueryOpts) -> Self {
        MutationOpts {
            cache_time: value.cache_time,
            network_mode: value.network_mode,
            retry: value.retry,
        }
    }
}

/// One logical mutation identity: the registry link its cache entries are
/// keyed by, and its configuration.
#[derive(Clone, Copy, Debug)]
pub struct Mutation {
    /// The registry link that keys this mutation's cache entries.
    pub link: WeakLink,
    /// This mutation's own configuration.
    pub opts: MutationOpts,
}

impl Mutation {
    /// A mutation identity over the given registry link, inheriting all
    /// configuration.
    pub fn new(link: WeakLink) -> (r: Self)
        ensures
            r == (Mutation {
                link,
                opts: MutationOpts {
                    cache_time: SetOption::Inherrit,
                    network_mode: SetOption::Inherrit,
                    retry: SetOption::Inherrit,
                },
            }),
    {
        Mutation { link, opts: MutationOpts::new() }
    }

    /// A mutation identity over the given registry link, with configuration.
    pub fn new_with_opts(link: WeakLink, opts: MutationOpts) -> (r: Self)
        ensures
            r == (Mutation { link, opts }),
    {
        Mutation { link, opts }
    }
}

/// The cache entry of one mutation on one client.
pub struct MutateMeta<R, E> {
    /// The observable state, fanned out to subscribers on every publish.
    pub data: Listenable<MutationData<R, E>>,
    /// The generation stamp given to this entry when it was created.
    pub id: u64,
    /// The idle-eviction state.
    pub cache_control: CacheControl,
}

impl<R, E> MutateMeta<R, E> {
    /// The entry's invariant.
    pub open spec fn wf(self) -> bool {
        &&& self.data.wf()
        &&& self.cache_control.wf()
    }

    /// `self` is `pre` with at most the observable value replaced: the
    /// stamp, the eviction state and the subscribers are all kept.
    pub open spec fn kept_but_data(self, pre: Self) -> bool {
        &&& self.id == pre.id
        &&& self.cache_control == pre.cache_control
        &&& Listenable::same_listeners(self.data, pre.data)
    }
}

} // verus!
