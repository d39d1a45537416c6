//! Query identities and their per-query configuration.
//!
//! A [`Query`] is the stable identity of one logical read: the cache keys
//! its entries by the query's registry link. The asynchronous function that
//! actually produces the value lives with the caller, which runs it when the
//! fetch protocol asks for an execution.

use vstd::prelude::*;

use crate::cache::CacheControl;
use crate::config::retry::RetryConfig;
use crate::config::{CacheTime, NetworkMode, SetOption};
use crate::const_default::ConstDefault;
use crate::handle_map::HandleMap;
use crate::listenable::Listenable;
use crate::mutation::MutationOpts;
use crate::status::QueryData;
use crate::weak_link::WeakLink;

verus! {

/// Per-query configuration; anything left to inherit falls through to the
/// client (see [`crate::config::resolve`]).
#[derive(Clone, Copy, Debug, PartialEq, Eq, Structural)]
pub struct QueryOpts {
    /// How long the entry stays cached while unused.
    pub cache_time: SetOption<CacheTime>,
    /// How offline periods are treated.
    pub network_mode: SetOption<NetworkMode>,
    /// How failures are retried.
    pub retry: SetOption<RetryConfig>,
}

impl QueryOpts {
    /// Options that inherit everything.
    pub fn new() -> (r: Self)
        ensures
            r == (QueryOpts {
                cache_time: SetOption::Inherrit,
                network_mode: SetOption::Inherrit,
                retry: SetOption::Inherrit,
            }),
    {
        QueryOpts {
            cache_time: SetOption::Inherrit,
            network_mode: SetOption::Inherrit,
            retry: SetOption::Inherrit,
        }
    }

    /// Options that set every value to its process default.
    pub fn const_default() -> (r: Self)
        ensures
            r == QueryOpts::spec_default(),
    {
        QueryOpts {
            cache_time: SetOption::Explicit(CacheTime::const_default()),
            network_mode: SetOption::Explicit(NetworkMode::const_default()),
            retry: SetOption::Explicit(RetryConfig::const_default()),
        }
    }

    /// These options with the cache time set.
    pub fn set_cache_time(self, cache_time: CacheTime) -> (r: Self)
        ensures
            r == (QueryOpts { cache_time: SetOption::Explicit(cache_time), ..self }),
    {
        QueryOpts { cache_time: SetOption::Explicit(cache_time), ..self }
    }

    /// These options with the network mode set.
    pub fn set_network_mode(self, network_mode: NetworkMode) -> (r: Self)
        ensures
            r == (QueryOpts { network_mode: SetOption::Explicit(network_mode), ..self }),
    {
        QueryOpts { network_mode: SetOption::Explicit(network_mode), ..self }
    }

    /// These options with the retry configuration set.
    pub fn set_retry(self, retry: RetryConfig) -> (r: Self)
        ensures
            r == (QueryOpts { retry: SetOption::Explicit(retry), ..self }),
    {
        QueryOpts { retry: SetOption::Explicit(retry), ..self }
    }
}

impl ConstDefault for QueryOpts {
    open spec fn spec_default() -> Self {
        QueryOpts {
            cache_time: SetOption::Explicit(CacheTime::spec_default()),
            network_mode: SetOption::Explicit(NetworkMode::spec_default()),
            retry: SetOption::Explicit(RetryConfig::spec_default()),
        }
    }

    fn const_default() -> (r: Self) {
        QueryOpts::const_default()
    }
}

impl Default for QueryOpts {
    fn default() -> (r: Self)
        ensures
            r == QueryOpts::spec_default(),
    {
        QueryOpts::const_default()
    }
}

impl From<MutationOpts> for QueryOpts {
    fn from(value: MutationOpts) -> (r: Self) {
        QueryOpts {
            cache_time: value.cache_time,
            network_mode: value.network_mode,
            retry: value.retry,
        }
    }
}

impl vstd::std_specs::convert::FromSpecImpl<MutationOpts> for QueryOpts {
    open spec fn obeys_from_spec() -> bool {
        true
    }

    open spec fn from_spec(value: MutationOpts) -> Self {
        QueryOpts {
            cache_time: value.cache_time,
            network_mode: value.network_mode,
            retry: value.retry,
        }
    }
}

/// One logical query identity: the registry link its cache entries are
/// keyed by, and its configuration.
#[derive(Clone, Copy, Debug)]
pub struct Query {
    /// The registry link that keys this query's cache entries.
    pub link: WeakLink,
    /// This query's own configuration.
    pub opts: QueryOpts,
}

impl Query {
    /// A query identity over the given registry link, inheriting all
    /// configuration.
    pub fn new(link: WeakLink) -> (r: Self)
        ensures
            r == (Query { link, opts: QueryOpts::spec_new_inherrit() }),
    {
        Query { link, opts: QueryOpts::new() }
    }

    /// A query identity over the given registry link, with configuration.
    pub fn new_with_opts(link: WeakLink, opts: QueryOpts) -> (r: Self)
        ensures
            r == (Query { link, opts }),
    {
        Query { link, opts }
    }
}

impl QueryOpts {
    /// Options that inherit everything, as a specification value.
    pub open spec fn spec_new_inherrit() -> Self {
        QueryOpts {
            cache_time: SetOption::Inherrit,
            network_mode: SetOption::Inherrit,
            retry: SetOption::Inherrit,
        }
    }
}

/// The cache entry of one query on one client: its observable state, the
/// generation stamp of the latest fetch call, the pending continuations
/// waiting for connectivity, and the eviction controller.
pub struct FetchMeta<R, E> {
    /// The observable state, fanned out to subscribers on every publish.
    pub data: Listenable<QueryData<R, E>>,
    /// The generation stamp of the latest fetch call for this entry; a
    /// fetch whose captured stamp no longer matches has been superseded.
    pub id: u64,
    /// Continuations parked until connectivity returns.
    pub future_handles: HandleMap<()>,
    /// The idle-eviction state.
    pub cache_control: CacheControl,
}

impl<R, E> FetchMeta<R, E> {
    /// The entry's invariant.
    pub open spec fn wf(self) -> bool {
        &&& self.data.wf()
        &&& self.future_handles.wf()
        &&& self.cache_control.wf()
    }

    /// `self` is `pre` with at most the observable value replaced: the
    /// stamp, the pending set, the eviction state and the subscribers are
    /// all kept.
    pub open spec fn kept_but_data(self, pre: Self) -> bool {
        &&& self.id == pre.id
        &&& self.future_handles == pre.future_handles
        &&& self.cache_control == pre.cache_control
        &&& Listenable::same_listeners(self.data, pre.data)
    }
}

} // verus!
