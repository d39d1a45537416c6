//! The client: configuration, the two caches, and the fetch and mutate
//! protocols.
//!
//! A fetch is a conversation between the caller and the engine. The caller
//! asks [`QueryClient::fetch_start`] for a generation stamp, then drives a
//! loop: [`QueryClient::fetch_claim`] re-checks that the fetch is still the
//! latest and publishes the loading status; [`QueryClient::should_pause`]
//! decides whether to wait for connectivity (parking a ticket with
//! [`QueryClient::fetch_pause`]); otherwise the caller runs the query
//! function and hands the outcome to [`QueryClient::fetch_commit`], which
//! either finishes with a [`FetchResult`] or asks for one more attempt after
//! a delay. Every decision and every cache change is made here; the caller
//! only awaits and runs the query function.

use vstd::prelude::*;

use crate::cache::mutation::MutationCache;
use crate::cache::query::QueryCache;
use crate::cache::{CacheControl, EvictionTimer};
use crate::config::resolve;
use crate::config::retry::{spec_retry_delay, RetryConfig};
use crate::config::{CacheTime, NetworkMode, SetOption};
use crate::const_default::ConstDefault;
use crate::handle_map::{Handle, HandleMap};
use crate::listenable::Listenable;
use crate::mutation::{MutateMeta, Mutation, MutationOpts};
use crate::query::{FetchMeta, Query, QueryOpts};
use crate::status::{
    rc_clone, FetchResult, LoadingStatus, MutateError, MutationData, NoConnection, QueryData,
    QueryStatus,
};
use crate::weak_link::{Registry, Target, WeakLink};

use std::rc::Rc;

verus! {

/// Client-wide configuration: global defaults plus optional per-category
/// (query / mutation) defaults.
#[derive(Clone, Copy, Debug)]
pub struct ClientOpts {
    /// The client-wide cache time.
    pub cache_time: SetOption<CacheTime>,
    /// The client-wide network mode.
    pub network_mode: SetOption<NetworkMode>,
    /// The client-wide retry configuration.
    pub retry: SetOption<RetryConfig>,
    /// Defaults for queries fetched on this client.
    pub query: Option<QueryOpts>,
    /// Defaults for mutations executed on this client.
    pub mutation: Option<MutationOpts>,
}

impl ClientOpts {
    /// Options that inherit everything.
    pub fn new() -> (r: Self)
        ensures
            r == (ClientOpts {
                cache_time: SetOption::Inherrit,
                network_mode: SetOption::Inherrit,
                retry: SetOption::Inherrit,
                query: None::<QueryOpts>,
                mutation: None::<MutationOpts>,
            }),
    {
        ClientOpts {
            cache_time: SetOption::Inherrit,
            network_mode: SetOption::Inherrit,
            retry: SetOption::Inherrit,
            query: None,
            mutation: None,
        }
    }

    /// Options that set every client-wide value to its process default.
    pub fn const_default() -> (r: Self)
        ensures
            r == ClientOpts::spec_default(),
    {
        ClientOpts {
            cache_time: SetOption::Explicit(CacheTime::const_default()),
            network_mode: SetOption::Explicit(NetworkMode::const_default()),
            retry: SetOption::Explicit(RetryConfig::const_default()),
            query: None,
            mutation: None,
        }
    }

    /// These options with the client-wide cache time set.
    pub fn set_cache_time(self, cache_time: CacheTime) -> (r: Self)
        ensures
            r == (ClientOpts { cache_time: SetOption::Explicit(cache_time), ..self }),
    {
        ClientOpts { cache_time: SetOption::Explicit(cache_time), ..self }
    }

    /// These options with the client-wide network mode set.
    pub fn set_network_mode(self, network_mode: NetworkMode) -> (r: Self)
        ensures
            r == (ClientOpts { network_mode: SetOption::Explicit(network_mode), ..self }),
    {
        ClientOpts { network_mode: SetOption::Explicit(network_mode), ..self }
    }

    /// These options with the client-wide retry configuration set.
    pub fn set_retry(self, retry: RetryConfig) -> (r: Self)
        ensures
            r == (ClientOpts { retry: SetOption::Explicit(retry), ..self }),
    {
        ClientOpts { retry: SetOption::Explicit(retry), ..self }
    }

    /// These options with the query-category defaults set.
    pub fn set_query(self, query: QueryOpts) -> (r: Self)
        ensures
            r == (ClientOpts { query: Some(query), ..self }),
    {
        ClientOpts { query: Some(query), ..self }
    }

    /// These options with the mutation-category defaults set.
    pub fn set_mutation(self, mutation: MutationOpts) -> (r: Self)
        ensures
            r == (ClientOpts { mutation: Some(mutation), ..self }),
    {
        ClientOpts { mutation: Some(mutation), ..self }
    }
}

impl ConstDefault for ClientOpts {
    open spec fn spec_default() -> Self {
        ClientOpts {
            cache_time: SetOption::Explicit(CacheTime::spec_default()),
            network_mode: SetOption::Explicit(NetworkMode::spec_default()),
            retry: SetOption::Explicit(RetryConfig::spec_default()),
            query: None,
            mutation: None,
        }
    }

    fn const_default() -> (r: Self) {
        ClientOpts::const_default()
    }
}

impl Default for ClientOpts {
    fn default() -> (r: Self)
        ensures
            r == ClientOpts::spec_default(),
    {
        ClientOpts::const_default()
    }
}

impl From<QueryOpts> for ClientOpts {
    fn from(value: QueryOpts) -> (r: Self) {
        ClientOpts {
            cache_time: value.cache_time,
            network_mode: value.network_mode,
            retry: value.retry,
            query: None,
            mutation: None,
        }
    }
}

impl vstd::std_specs::convert::FromSpecImpl<QueryOpts> for ClientOpts {
    open spec fn obeys_from_spec() -> bool {
        true
    }

    open spec fn from_spec(value: QueryOpts) -> Self {
        ClientOpts {
            cache_time: value.cache_time,
            network_mode: value.network_mode,
            retry: value.retry,
            query: None,
            mutation: None,
        }
    }
}

impl From<MutationOpts> for ClientOpts {
    fn from(value: MutationOpts) -> (r: Self) {
        ClientOpts {
            cache_time: value.cache_time,
            network_mode: value.network_mode,
            retry: value.retry,
            query: None,
            mutation: None,
        }
    }
}

impl vstd::std_specs::convert::FromSpecImpl<MutationOpts> for ClientOpts {
    open spec fn obeys_from_spec() -> bool {
        true
    }

    open spec fn from_spec(value: MutationOpts) -> Self {
        ClientOpts {
            cache_time: value.cache_time,
            network_mode: value.network_mode,
            retry: value.retry,
            query: None,
            mutation: None,
        }
    }
}

/// A live subscription: the entry it belongs to and the listener handle to
/// release. Handing it to `unsubscribe_query` (or `unsubscribe_mutation`)
/// ends the subscription.
#[derive(Clone, Copy, Debug, PartialEq, Eq, Structural)]
pub struct Guard {
    /// The identity subscribed to.
    pub link: WeakLink,
    /// The listener handle in the entry's observable cell.
    pub handle: Handle,
}

/// What `fetch_commit` asks the caller to do next.
#[derive(Debug)]
pub enum FetchStep<R, E> {
    /// The fetch is finished with this result.
    Done(FetchResult<R, E>),
    /// The policy authorized a retry: wait this many milliseconds, then run
    /// the claim / execute / commit round once more with the same stamp and
    /// the next attempt number.
    Retry(u64),
}

/// A configured client: its options and its two caches.
pub struct QueryClient {
    /// This client's configuration.
    pub opts: ClientOpts,
    /// Where this client's query entries live.
    pub query_cache: QueryCache,
    /// Where this client's mutation entries live.
    pub mutation_cache: MutationCache,
}

/// Staleness: a fetch call that begins after another fetch captured its
/// stamp restamps the entry, so the two stamps differ and the earlier fetch
/// can never own the entry again — its claim is cancelled, its commit
/// reported stale, and the cache keeps the newer fetch's result.
///
/// `id_a` is a stamp some earlier fetch captured (every stamp ever issued
/// lies below the cache's next one, which `QueryCache::wf_for` maintains);
/// `id_b` is what `fetch_start` returns when called on `cache_at_b`.
pub proof fn lemma_newer_fetch_supersedes(cache_at_b: QueryCache, id_a: u64, id_b: u64)
    requires
        id_a < cache_at_b.spec_next_gen(),
        id_b == cache_at_b.spec_next_gen(),
    ensures
        id_a != id_b,
{
}

/// The observable state the claim step leaves in an entry: a pending result
/// keeps its value but shows the loading status implied by connectivity,
/// and a settled result keeps its value with the same status translated.
pub open spec fn spec_claim_data<R, E>(d: QueryData<R, E>, online: bool) -> QueryData<R, E> {
    let ls = LoadingStatus::spec_from_online(online);
    match d {
        QueryData::Loading(_) => QueryData::Loading(ls),
        QueryData::Success(v, _) => QueryData::Success(v, ls.spec_as_query()),
        QueryData::Failure(e, _) => QueryData::Failure(e, ls.spec_as_query()),
    }
}

impl QueryClient {
    /// A client over freshly issued cache targets.
    pub fn new(opts: ClientOpts, query_target: Target, mutation_target: Target) -> (r: Self)
        ensures
            r.opts == opts,
            r.query_cache.target == query_target,
            r.query_cache.spec_next_gen() == 0,
            r.mutation_cache.target == mutation_target,
            r.mutation_cache.spec_next_gen() == 0,
    {
        QueryClient {
            opts,
            query_cache: QueryCache::new(query_target),
            mutation_cache: MutationCache::new(mutation_target),
        }
    }

    /// A client over the given caches.
    pub fn new_with_caches(
        opts: ClientOpts,
        query_cache: QueryCache,
        mutation_cache: MutationCache,
    ) -> (r: Self)
        ensures
            r == (QueryClient { opts, query_cache, mutation_cache }),
    {
        QueryClient { opts, query_cache, mutation_cache }
    }

    /// The query cache this client is attached to.
    pub fn query_cache(&self) -> (r: &QueryCache)
        ensures
            *r == self.query_cache,
    {
        &self.query_cache
    }

    /// The cached state for `query`, without side effect.
    pub fn query_data<R, E>(&self, reg: &Registry<FetchMeta<R, E>>, query: &Query) -> (r: Option<
        QueryData<R, E>,
    >)
        requires
            reg.wf(),
        ensures
            match r {
                Some(d) => reg.has_row(query.link, self.query_cache.target) && d == reg.row_value(
                    query.link,
                    self.query_cache.target,
                ).data.spec_value(),
                None => !reg.has_row(query.link, self.query_cache.target),
            },
    {
        self.query_cache.data(reg, query)
    }

    /// Whether a fetch attempt must pause for connectivity: the connection
    /// is down and the resolved network mode does not allow attempt number
    /// `count` to run offline.
    pub fn should_pause(&self, query: &Query, online: bool, count: u32) -> (r: bool)
        ensures
            r == (!online && !resolve::spec_query_network_mode(
                self.opts,
                query.opts,
            ).spec_should_try(count)),
    {
        let mode = resolve::resolve_query_network_mode(&self.opts, &query.opts);
        !online && !mode.should_try(count)
    }

    /// Begins a fetch call for `query`: the cache entry is created if it
    /// does not exist (in loading state, with its idle timer started — the
    /// caller must schedule the returned timer), and the entry is stamped
    /// with a fresh generation, which is returned. A fetch call supersedes
    /// every earlier fetch still in flight for the same entry: their commits
    /// become stale, their retries cancelled.
    pub fn fetch_start<R, E>(
        &mut self,
        reg: &mut Registry<FetchMeta<R, E>>,
        query: &Query,
        online: bool,
    ) -> (r: (u64, Option<EvictionTimer>))
        requires
            old(reg).wf(),
            old(self).query_cache.wf_for(*old(reg)),
            old(reg).link_alive(query.link),
            old(reg).target_alive(old(self).query_cache.target),
            old(self).query_cache.spec_next_gen() < u64::MAX,
        ensures
            final (reg).wf(),
            final (self).query_cache.wf_for(*final (reg)),
            final (self).opts == old(self).opts,
            final (self).mutation_cache == old(self).mutation_cache,
            final (self).query_cache.target == old(self).query_cache.target,
            final (self).query_cache.spec_next_gen() == old(self).query_cache.spec_next_gen() + 1,
            Registry::<FetchMeta<R, E>>::same_alive(*final (reg), *old(reg)),
            Registry::<FetchMeta<R, E>>::same_assoc_except(
                *final (reg),
                *old(reg),
                query.link,
                old(self).query_cache.target,
            ),
            r.0 == old(self).query_cache.spec_next_gen(),
            final (reg).has_row(query.link, old(self).query_cache.target),
            final (reg).row_value(query.link, old(self).query_cache.target).id == r.0,
            old(reg).has_row(query.link, old(self).query_cache.target) ==> {
                let pre = old(reg).row_value(query.link, old(self).query_cache.target);
                let post = final (reg).row_value(query.link, old(self).query_cache.target);
                &&& post.data == pre.data
                &&& post.future_handles == pre.future_handles
                &&& post.cache_control == pre.cache_control
                &&& r.1 is None
            },
            !old(reg).has_row(query.link, old(self).query_cache.target) ==> {
                let post = final (reg).row_value(query.link, old(self).query_cache.target);
                &&& post.data.spec_value() == QueryData::<R, E>::Loading(
                    LoadingStatus::spec_from_online(online),
                )
                &&& post.data.listener_count() == 0
                &&& post.future_handles.spec_len() == 0
                &&& !post.cache_control.is_active()
                &&& post.cache_control.spec_cache_time() == resolve::spec_query_cache_time(
                    old(self).opts,
                    query.opts,
                )
                &&& match resolve::spec_query_cache_time(old(self).opts, query.opts) {
                    CacheTime::Duration(d) => r.1 == Some(
                        EvictionTimer { epoch: post.cache_control.spec_epoch(), delay_ms: d },
                    ) && post.cache_control.should_evict_at(post.cache_control.spec_epoch()),
                    CacheTime::Infinite => r.1 is None,
                }
            },
    {
        let t = self.query_cache.target;
        let id = self.query_cache.next_id();
        let ghost reg0 = *old(reg);
        match reg.remove(query.link, t) {
            Some(meta) => {
                let ghost reg1 = *reg;
                let mut meta = meta;
                meta.id = id;
                reg.insert(query.link, t, meta);
                proof {
                    Registry::<FetchMeta<R, E>>::lemma_assoc_except_trans(
                        *reg,
                        reg1,
                        reg0,
                        query.link,
                        t,
                    );
                    Registry::<FetchMeta<R, E>>::lemma_alive_trans(*reg, reg1, reg0);
                    assert forall|l: WeakLink| #[trigger]
                        reg.has_row(l, t) implies reg.row_value(l, t).id
                        < self.query_cache.spec_next_gen() && reg.row_value(l, t).wf() by {
                        if l != query.link {
                            assert(reg0.has_row(l, t));
                        }
                    }
                }
                (id, None)
            },
            None => {
                let ghost reg1 = *reg;
                let cache_time = resolve::resolve_query_cache_time(&self.opts, &query.opts);
                let (cc, timer) = CacheControl::new(cache_time);
                let meta = FetchMeta::<R, E> {
                    data: Listenable::new(QueryData::Loading(LoadingStatus::from_online(online))),
                    id,
                    future_handles: HandleMap::new(),
                    cache_control: cc,
                };
                reg.insert(query.link, t, meta);
                proof {
                    Registry::<FetchMeta<R, E>>::lemma_assoc_except_trans(
                        *reg,
                        reg1,
                        reg0,
                        query.link,
                        t,
                    );
                    Registry::<FetchMeta<R, E>>::lemma_alive_trans(*reg, reg1, reg0);
                    assert forall|l: WeakLink| #[trigger]
                        reg.has_row(l, t) implies reg.row_value(l, t).id
                        < self.query_cache.spec_next_gen() && reg.row_value(l, t).wf() by {
                        if l != query.link {
                            assert(reg0.has_row(l, t));
                        }
                    }
                }
                (id, timer)
            },
        }
    }

    /// The claim step of one fetch attempt: re-checks that the fetch with
    /// stamp `id` is still the latest for its entry, and publishes the
    /// loading status implied by connectivity — but only when the status
    /// actually changes.
    ///
    /// Returns whether the attempt may proceed (`false`: the entry is gone
    /// or a newer fetch owns it — the attempt is cancelled and nothing is
    /// touched), and the published state, if a publish happened, for the
    /// caller to fan out.
    pub fn fetch_claim<R, E>(
        &self,
        reg: &mut Registry<FetchMeta<R, E>>,
        query: &Query,
        id: u64,
        online: bool,
    ) -> (r: (bool, Option<QueryData<R, E>>))
        requires
            old(reg).wf(),
            self.query_cache.wf_for(*old(reg)),
        ensures
            final (reg).wf(),
            self.query_cache.wf_for(*final (reg)),
            Registry::<FetchMeta<R, E>>::same_alive(*final (reg), *old(reg)),
            Registry::<FetchMeta<R, E>>::same_assoc_except(
                *final (reg),
                *old(reg),
                query.link,
                self.query_cache.target,
            ),
            (!old(reg).has_row(query.link, self.query_cache.target) || old(reg).row_value(
                query.link,
                self.query_cache.target,
            ).id != id) ==> {
                &&& *final (reg) == *old(reg)
                &&& r.0 == false
                &&& r.1 is None
            },
            (old(reg).has_row(query.link, self.query_cache.target) && old(reg).row_value(
                query.link,
                self.query_cache.target,
            ).id == id) ==> {
                let pre = old(reg).row_value(query.link, self.query_cache.target);
                let post = final (reg).row_value(query.link, self.query_cache.target);
                &&& r.0 == true
                &&& final (reg).has_row(query.link, self.query_cache.target)
                &&& post.kept_but_data(pre)
                &&& post.data.spec_value() == spec_claim_data(pre.data.spec_value(), online)
                &&& r.1 == if spec_claim_data(pre.data.spec_value(), online) == pre.data.spec_value() {
                    None::<QueryData<R, E>>
                } else {
                    Some(post.data.spec_value())
                }
            },
    {
        let t = self.query_cache.target;
        let new_status = LoadingStatus::from_online(online);
        let mut present: bool = false;
        let mut id_matches: bool = false;
        let mut changed: bool = false;
        match reg.get(query.link, t) {
            Some(meta) => {
                present = true;
                if meta.id == id {
                    id_matches = true;
                    changed = match meta.data.peek() {
                        QueryData::Loading(s) => !(*s == new_status),
                        QueryData::Success(_, s) => !(*s == new_status.as_query()),
                        QueryData::Failure(_, s) => !(*s == new_status.as_query()),
                    };
                }
            },
            None => {},
        }
        if !present || !id_matches {
            return (false, None);
        }
        if !changed {
            return (true, None);
        }
        let ghost reg0 = *old(reg);
        match reg.remove(query.link, t) {
            Some(mut meta) => {
                let ghost reg1 = *reg;
                proof {
                    reg0.lemma_row_endpoints_alive(query.link, t);
                }
                let new_data = match meta.data.peek() {
                    QueryData::Loading(_) => QueryData::Loading(new_status),
                    QueryData::Success(v, _) => QueryData::Success(
                        rc_clone(v),
                        new_status.as_query(),
                    ),
                    QueryData::Failure(e, _) => QueryData::Failure(
                        rc_clone(e),
                        new_status.as_query(),
                    ),
                };
                let publish = new_data.duplicate();
                let _ = meta.data.set(new_data);
                reg.insert(query.link, t, meta);
                proof {
                    Registry::<FetchMeta<R, E>>::lemma_assoc_except_trans(
                        *reg,
                        reg1,
                        reg0,
                        query.link,
                        t,
                    );
                    Registry::<FetchMeta<R, E>>::lemma_alive_trans(*reg, reg1, reg0);
                    assert forall|l: WeakLink| #[trigger]
                        reg.has_row(l, t) implies reg.row_value(l, t).id
                        < self.query_cache.spec_next_gen() && reg.row_value(l, t).wf() by {
                        if l != query.link {
                            assert(reg0.has_row(l, t));
                        } else {
                            assert(reg0.has_row(l, t));
                        }
                    }
                }
                (true, Some(publish))
            },
            None => {
                proof {
                    assert(false);
                }
                (false, None)
            },
        }
    }

    /// Parks a fetch attempt that must wait for connectivity: a continuation
    /// ticket is stored in the entry's pending set and returned, so the
    /// caller can resume the attempt (and then release the ticket with
    /// [`QueryClient::fetch_unpause`]) once the connection returns. Returns
    /// `None`, touching nothing, when the entry is gone or a newer fetch
    /// owns it.
    pub fn fetch_pause<R, E>(
        &self,
        reg: &mut Registry<FetchMeta<R, E>>,
        query: &Query,
        id: u64,
    ) -> (r: Option<NoConnection>)
        requires
            old(reg).wf(),
            self.query_cache.wf_for(*old(reg)),
            old(reg).has_row(query.link, self.query_cache.target) ==> old(reg).row_value(
                query.link,
                self.query_cache.target,
            ).future_handles.spec_next() < u64::MAX,
        ensures
            final (reg).wf(),
            self.query_cache.wf_for(*final (reg)),
            Registry::<FetchMeta<R, E>>::same_alive(*final (reg), *old(reg)),
            Registry::<FetchMeta<R, E>>::same_assoc_except(
                *final (reg),
                *old(reg),
                query.link,
                self.query_cache.target,
            ),
            (!old(reg).has_row(query.link, self.query_cache.target) || old(reg).row_value(
                query.link,
                self.query_cache.target,
            ).id != id) ==> *final (reg) == *old(reg) && r is None,
            (old(reg).has_row(query.link, self.query_cache.target) && old(reg).row_value(
                query.link,
                self.query_cache.target,
            ).id == id) ==> {
                let pre = old(reg).row_value(query.link, self.query_cache.target);
                let post = final (reg).row_value(query.link, self.query_cache.target);
                &&& final (reg).has_row(query.link, self.query_cache.target)
                &&& r matches Some(nc) && post.future_handles.contains(nc.handle)
                    && !pre.future_handles.contains(nc.handle)
                &&& post.id == pre.id
                &&& post.data == pre.data
                &&& post.cache_control == pre.cache_control
                &&& post.future_handles.spec_len() == pre.future_handles.spec_len() + 1
            },
    {
        let t = self.query_cache.target;
        let mut park: bool = false;
        match reg.get(query.link, t) {
            Some(meta) => {
                if meta.id == id {
                    park = true;
                }
            },
            None => {},
        }
        if !park {
            return None;
        }
        let ghost reg0 = *old(reg);
        match reg.remove(query.link, t) {
            Some(mut meta) => {
                let ghost reg1 = *reg;
                proof {
                    reg0.lemma_row_endpoints_alive(query.link, t);
                }
                let handle = meta.future_handles.insert(());
                reg.insert(query.link, t, meta);
                proof {
                    Registry::<FetchMeta<R, E>>::lemma_assoc_except_trans(
                        *reg,
                        reg1,
                        reg0,
                        query.link,
                        t,
                    );
                    Registry::<FetchMeta<R, E>>::lemma_alive_trans(*reg, reg1, reg0);
                    assert forall|l: WeakLink| #[trigger]
                        reg.has_row(l, t) implies reg.row_value(l, t).id
                        < self.query_cache.spec_next_gen() && reg.row_value(l, t).wf() by {
                        assert(reg0.has_row(l, t));
                    }
                }
                Some(NoConnection { handle })
            },
            None => {
                proof {
                    assert(false);
                }
                None
            },
        }
    }

    /// Releases a parked continuation ticket: the resumed (or abandoned)
    /// attempt no longer waits in the entry's pending set. Touches nothing
    /// else; an entry that is already gone stays gone.
    pub fn fetch_unpause<R, E>(
        &self,
        reg: &mut Registry<FetchMeta<R, E>>,
        query: &Query,
        ticket: NoConnection,
    )
        requires
            old(reg).wf(),
            self.query_cache.wf_for(*old(reg)),
        ensures
            final (reg).wf(),
            self.query_cache.wf_for(*final (reg)),
            Registry::<FetchMeta<R, E>>::same_alive(*final (reg), *old(reg)),
            Registry::<FetchMeta<R, E>>::same_assoc_except(
                *final (reg),
                *old(reg),
                query.link,
                self.query_cache.target,
            ),
            !old(reg).has_row(query.link, self.query_cache.target) ==> *final (reg) == *old(reg),
            old(reg).has_row(query.link, self.query_cache.target) ==> {
                let pre = old(reg).row_value(query.link, self.query_cache.target);
                let post = final (reg).row_value(query.link, self.query_cache.target);
                &&& final (reg).has_row(query.link, self.query_cache.target)
                &&& post.id == pre.id
                &&& post.data == pre.data
                &&& post.cache_control == pre.cache_control
                &&& !post.future_handles.contains(ticket.handle)
            },
    {
        let t = self.query_cache.target;
        let present = reg.contains_row(query.link, t);
        if !present {
            return ;
        }
        let ghost reg0 = *old(reg);
        match reg.remove(query.link, t) {
            Some(mut meta) => {
                let ghost reg1 = *reg;
                proof {
                    reg0.lemma_row_endpoints_alive(query.link, t);
                }
                let _ = meta.future_handles.remove(ticket.handle);
                reg.insert(query.link, t, meta);
                proof {
                    Registry::<FetchMeta<R, E>>::lemma_assoc_except_trans(
                        *reg,
                        reg1,
                        reg0,
                        query.link,
                        t,
                    );
                    Registry::<FetchMeta<R, E>>::lemma_alive_trans(*reg, reg1, reg0);
                    assert forall|l: WeakLink| #[trigger]
                        reg.has_row(l, t) implies reg.row_value(l, t).id
                        < self.query_cache.spec_next_gen() && reg.row_value(l, t).wf() by {
                        assert(reg0.has_row(l, t));
                    }
                }
            },
            None => {
                proof {
                    assert(false);
                }
            },
        }
    }

    /// The commit step of one fetch attempt: `result` is what the query
    /// function returned on attempt number `count` (1-based) of the fetch
    /// stamped `id`.
    ///
    /// If a newer fetch owns the entry (or the entry is gone), the cache is
    /// left untouched and the result is handed back tagged stale. Otherwise
    /// a success is published and returned fresh; a failure consults the
    /// resolved retry policy — either one more attempt is requested after
    /// the returned delay (publishing the error with a loading status), or
    /// the terminal error is published and returned fresh.
    ///
    /// `func_retry` must be the verdict of the caller's retry predicate for
    /// this failure when the resolved policy is [`RetryPolicy::Func`], and
    /// `func_delay` the caller's computed delay when the resolved delay is
    /// [`RetryDelay::DelayFn`]; both are ignored otherwise.
    ///
    /// [`RetryPolicy::Func`]: crate::config::retry::RetryPolicy::Func
    /// [`RetryDelay::DelayFn`]: crate::config::retry::RetryDelay::DelayFn
    pub fn fetch_commit<R, E>(
        &self,
        reg: &mut Registry<FetchMeta<R, E>>,
        query: &Query,
        id: u64,
        count: u32,
        result: Result<R, E>,
        func_retry: bool,
        func_delay: u64,
    ) -> (r: (FetchStep<R, E>, Option<QueryData<R, E>>))
        requires
            old(reg).wf(),
            self.query_cache.wf_for(*old(reg)),
        ensures
            final (reg).wf(),
            self.query_cache.wf_for(*final (reg)),
            Registry::<FetchMeta<R, E>>::same_alive(*final (reg), *old(reg)),
            Registry::<FetchMeta<R, E>>::same_assoc_except(
                *final (reg),
                *old(reg),
                query.link,
                self.query_cache.target,
            ),
            (!old(reg).has_row(query.link, self.query_cache.target) || old(reg).row_value(
                query.link,
                self.query_cache.target,
            ).id != id) ==> {
                &&& *final (reg) == *old(reg)
                &&& r.0 matches FetchStep::Done(FetchResult::Stale(res)) && res == result
                &&& r.1 is None
            },
            (old(reg).has_row(query.link, self.query_cache.target) && old(reg).row_value(
                query.link,
                self.query_cache.target,
            ).id == id) ==> {
                let pre = old(reg).row_value(query.link, self.query_cache.target);
                let post = final (reg).row_value(query.link, self.query_cache.target);
                let decision = spec_retry_delay(
                    resolve::spec_query_retry(self.opts, query.opts),
                    count,
                    func_retry,
                    func_delay,
                );
                &&& final (reg).has_row(query.link, self.query_cache.target)
                &&& post.kept_but_data(pre)
                &&& r.1 matches Some(p) && p == post.data.spec_value()
                &&& match result {
                    Ok(v) => {
                        &&& post.data.spec_value() matches QueryData::Success(rv, st) && rv == v
                            && st == QueryStatus::Idle
                        &&& r.0 matches FetchStep::Done(FetchResult::Fresh(res)) && res matches Ok(
                            rv2,
                        ) && rv2 == v
                    },
                    Err(e) => {
                        &&& post.data.spec_value() matches QueryData::Failure(re, st) && re == e
                            && st == (if decision is Some {
                            QueryStatus::Loading
                        } else {
                            QueryStatus::Idle
                        })
                        &&& match decision {
                            Some(d) => r.0 == FetchStep::<R, E>::Retry(d),
                            None => r.0 matches FetchStep::Done(FetchResult::Fresh(res))
                                && res matches Err(re2) && re2 == e,
                        }
                    },
                }
            },
    {
        let t = self.query_cache.target;
        let mut own: bool = false;
        match reg.get(query.link, t) {
            Some(meta) => {
                if meta.id == id {
                    own = true;
                }
            },
            None => {},
        }
        if !own {
            return (FetchStep::Done(FetchResult::Stale(result)), None);
        }
        let ghost reg0 = *old(reg);
        match reg.remove(query.link, t) {
            Some(mut meta) => {
                let ghost reg1 = *reg;
                proof {
                    reg0.lemma_row_endpoints_alive(query.link, t);
                }
                let (step, stored): (FetchStep<R, E>, QueryData<R, E>) = match result {
                    Ok(v) => {
                        let rc = Rc::new(v);
                        let stored = QueryData::Success(rc_clone(&rc), QueryStatus::Idle);
                        (FetchStep::Done(FetchResult::Fresh(Ok(rc))), stored)
                    },
                    Err(e) => {
                        let rc = Rc::new(e);
                        let cfg = resolve::resolve_retry(&self.opts, &query.opts);
                        match cfg.retry_delay(count, func_retry, func_delay) {
                            Some(delay) => {
                                let stored = QueryData::Failure(
                                    rc_clone(&rc),
                                    QueryStatus::Loading,
                                );
                                (FetchStep::Retry(delay), stored)
                            },
                            None => {
                                let stored = QueryData::Failure(rc_clone(&rc), QueryStatus::Idle);
                                (FetchStep::Done(FetchResult::Fresh(Err(rc))), stored)
                            },
                        }
                    },
                };
                let publish = stored.duplicate();
                let _ = meta.data.set(stored);
                reg.insert(query.link, t, meta);
                proof {
                    Registry::<FetchMeta<R, E>>::lemma_assoc_except_trans(
                        *reg,
                        reg1,
                        reg0,
                        query.link,
                        t,
                    );
                    Registry::<FetchMeta<R, E>>::lemma_alive_trans(*reg, reg1, reg0);
                    assert forall|l: WeakLink| #[trigger]
                        reg.has_row(l, t) implies reg.row_value(l, t).id
                        < self.query_cache.spec_next_gen() && reg.row_value(l, t).wf() by {
                        assert(reg0.has_row(l, t));
                    }
                }
                (step, Some(publish))
            },
            None => {
                proof {
                    assert(false);
                }
                (FetchStep::Done(FetchResult::Cancelled), None)
            },
        }
    }

    /// Subscribes to updates for `query` on this client: the entry is
    /// created if it does not exist, the entry is marked active (which
    /// cancels any pending eviction), and a fresh listener handle is issued.
    /// Dropping the subscription means handing the returned [`Guard`] to
    /// [`QueryClient::unsubscribe_query`].
    pub fn subscribe_query<R, E>(
        &mut self,
        reg: &mut Registry<FetchMeta<R, E>>,
        query: &Query,
        online: bool,
    ) -> (r: Guard)
        requires
            old(reg).wf(),
            old(self).query_cache.wf_for(*old(reg)),
            old(reg).link_alive(query.link),
            old(reg).target_alive(old(self).query_cache.target),
            old(self).query_cache.spec_next_gen() < u64::MAX,
            old(reg).has_row(query.link, old(self).query_cache.target) ==> old(reg).row_value(
                query.link,
                old(self).query_cache.target,
            ).data.spec_next_handle() < u64::MAX,
        ensures
            final (reg).wf(),
            final (self).query_cache.wf_for(*final (reg)),
            final (self).opts == old(self).opts,
            final (self).mutation_cache == old(self).mutation_cache,
            final (self).query_cache.target == old(self).query_cache.target,
            Registry::<FetchMeta<R, E>>::same_alive(*final (reg), *old(reg)),
            Registry::<FetchMeta<R, E>>::same_assoc_except(
                *final (reg),
                *old(reg),
                query.link,
                old(self).query_cache.target,
            ),
            final (reg).has_row(query.link, old(self).query_cache.target),
            r.link == query.link,
            ({
                let post = final (reg).row_value(query.link, old(self).query_cache.target);
                &&& post.cache_control.is_active()
                &&& forall|e: u64| !(#[trigger] post.cache_control.should_evict_at(e))
                &&& post.data.has_listener(r.handle)
            }),
            old(reg).has_row(query.link, old(self).query_cache.target) ==> {
                let pre = old(reg).row_value(query.link, old(self).query_cache.target);
                let post = final (reg).row_value(query.link, old(self).query_cache.target);
                &&& final (self).query_cache.spec_next_gen() == old(self).query_cache.spec_next_gen()
                &&& post.id == pre.id
                &&& post.future_handles == pre.future_handles
                &&& post.data.spec_value() == pre.data.spec_value()
                &&& post.data.listener_count() == pre.data.listener_count() + 1
                &&& !pre.data.has_listener(r.handle)
                &&& forall|h: Handle|
                    h != r.handle ==> #[trigger] post.data.has_listener(h) == pre.data.has_listener(
                        h,
                    )
                &&& post.cache_control.spec_cache_time() == pre.cache_control.spec_cache_time()
            },
            !old(reg).has_row(query.link, old(self).query_cache.target) ==> {
                let post = final (reg).row_value(query.link, old(self).query_cache.target);
                &&& final (self).query_cache.spec_next_gen() == old(self).query_cache.spec_next_gen()
                    + 1
                &&& post.id == old(self).query_cache.spec_next_gen()
                &&& post.data.spec_value() == QueryData::<R, E>::Loading(
                    LoadingStatus::spec_from_online(online),
                )
                &&& post.data.listener_count() == 1
                &&& post.future_handles.spec_len() == 0
                &&& post.cache_control.spec_cache_time() == resolve::spec_query_cache_time(
                    old(self).opts,
                    query.opts,
                )
            },
    {
        let t = self.query_cache.target;
        let ghost reg0 = *old(reg);
        match reg.remove(query.link, t) {
            Some(mut meta) => {
                let ghost reg1 = *reg;
                proof {
                    reg0.lemma_row_endpoints_alive(query.link, t);
                }
                let _ = meta.cache_control.set_active(true);
                let handle = meta.data.add_listener();
                reg.insert(query.link, t, meta);
                proof {
                    Registry::<FetchMeta<R, E>>::lemma_assoc_except_trans(
                        *reg,
                        reg1,
                        reg0,
                        query.link,
                        t,
                    );
                    Registry::<FetchMeta<R, E>>::lemma_alive_trans(*reg, reg1, reg0);
                    assert forall|l: WeakLink| #[trigger]
                        reg.has_row(l, t) implies reg.row_value(l, t).id
                        < self.query_cache.spec_next_gen() && reg.row_value(l, t).wf() by {
                        assert(reg0.has_row(l, t));
                    }
                }
                Guard { link: query.link, handle }
            },
            None => {
                let ghost reg1 = *reg;
                let id = self.query_cache.next_id();
                let cache_time = resolve::resolve_query_cache_time(&self.opts, &query.opts);
                let (cc, _) = CacheControl::new(cache_time);
                let mut cc = cc;
                let _ = cc.set_active(true);
                let mut data = Listenable::new(
                    QueryData::Loading(LoadingStatus::from_online(online)),
                );
                let handle = data.add_listener();
                let meta = FetchMeta::<R, E> {
                    data,
                    id,
                    future_handles: HandleMap::new(),
                    cache_control: cc,
                };
                reg.insert(query.link, t, meta);
                proof {
                    Registry::<FetchMeta<R, E>>::lemma_assoc_except_trans(
                        *reg,
                        reg1,
                        reg0,
                        query.link,
                        t,
                    );
                    Registry::<FetchMeta<R, E>>::lemma_alive_trans(*reg, reg1, reg0);
                    assert forall|l: WeakLink| #[trigger]
                        reg.has_row(l, t) implies reg.row_value(l, t).id
                        < self.query_cache.spec_next_gen() && reg.row_value(l, t).wf() by {
                        if l != query.link {
                            assert(reg0.has_row(l, t));
                        }
                    }
                }
                Guard { link: query.link, handle }
            },
        }
    }

    /// Ends the subscription `guard`: its listener is removed and, when the
    /// last subscriber is gone, the entry goes idle — under a finite cache
    /// time this starts the idle timer, which the caller must schedule.
    pub fn unsubscribe_query<R, E>(&self, reg: &mut Registry<FetchMeta<R, E>>, guard: Guard) -> (r:
        Option<EvictionTimer>)
        requires
            old(reg).wf(),
            self.query_cache.wf_for(*old(reg)),
            old(reg).has_row(guard.link, self.query_cache.target) ==> old(reg).row_value(
                guard.link,
                self.query_cache.target,
            ).cache_control.spec_epoch() < u64::MAX,
        ensures
            final (reg).wf(),
            self.query_cache.wf_for(*final (reg)),
            Registry::<FetchMeta<R, E>>::same_alive(*final (reg), *old(reg)),
            Registry::<FetchMeta<R, E>>::same_assoc_except(
                *final (reg),
                *old(reg),
                guard.link,
                self.query_cache.target,
            ),
            !old(reg).has_row(guard.link, self.query_cache.target) ==> *final (reg) == *old(reg)
                && r is None,
            old(reg).has_row(guard.link, self.query_cache.target) ==> {
                let pre = old(reg).row_value(guard.link, self.query_cache.target);
                let post = final (reg).row_value(guard.link, self.query_cache.target);
                &&& final (reg).has_row(guard.link, self.query_cache.target)
                &&& post.id == pre.id
                &&& post.future_handles == pre.future_handles
                &&& post.data.spec_value() == pre.data.spec_value()
                &&& !post.data.has_listener(guard.handle)
                &&& post.data.listener_count() == (if pre.data.has_listener(guard.handle) {
                    pre.data.listener_count() - 1
                } else {
                    pre.data.listener_count() as int
                })
                &&& post.cache_control.spec_cache_time() == pre.cache_control.spec_cache_time()
                &&& (post.data.listener_count() > 0 ==> post.cache_control == pre.cache_control
                    && r is None)
                &&& (post.data.listener_count() == 0 ==> {
                    &&& !post.cache_control.is_active()
                    &&& (!pre.cache_control.is_active() ==> post.cache_control
                        == pre.cache_control && r is None)
                    &&& (pre.cache_control.is_active() ==> match pre.cache_control.spec_cache_time() {
                        CacheTime::Duration(d) => {
                            &&& r == Some(
                                EvictionTimer {
                                    epoch: post.cache_control.spec_epoch(),
                                    delay_ms: d,
                                },
                            )
                            &&& post.cache_control.should_evict_at(
                                post.cache_control.spec_epoch(),
                            )
                        },
                        CacheTime::Infinite => r is None && forall|e: u64|
                            !(#[trigger] post.cache_control.should_evict_at(e)),
                    })
                })
            },
    {
        let t = self.query_cache.target;
        let present = reg.contains_row(guard.link, t);
        if !present {
            return None;
        }
        let ghost reg0 = *old(reg);
        match reg.remove(guard.link, t) {
            Some(mut meta) => {
                let ghost reg1 = *reg;
                proof {
                    reg0.lemma_row_endpoints_alive(guard.link, t);
                }
                let remaining = meta.data.remove_listener(guard.handle);
                let timer = if remaining == 0 {
                    meta.cache_control.set_active(false)
                } else {
                    None
                };
                reg.insert(guard.link, t, meta);
                proof {
                    Registry::<FetchMeta<R, E>>::lemma_assoc_except_trans(
                        *reg,
                        reg1,
                        reg0,
                        guard.link,
                        t,
                    );
                    Registry::<FetchMeta<R, E>>::lemma_alive_trans(*reg, reg1, reg0);
                    assert forall|l: WeakLink| #[trigger]
                        reg.has_row(l, t) implies reg.row_value(l, t).id
                        < self.query_cache.spec_next_gen() && reg.row_value(l, t).wf() by {
                        assert(reg0.has_row(l, t));
                    }
                }
                timer
            },
            None => {
                proof {
                    assert(false);
                }
                None
            },
        }
    }

    /// Begins a mutation: the entry is created if it does not exist (with
    /// its idle timer started — the caller must schedule the returned
    /// timer), and either the loading state (when online) or the
    /// no-connection error (when offline) is published. Returns whether the
    /// caller may run the mutation function, the published state to fan out,
    /// and the timer of a freshly created entry.
    pub fn mutate_begin<R, E>(
        &mut self,
        reg: &mut Registry<MutateMeta<R, E>>,
        mutation: &Mutation,
        online: bool,
    ) -> (r: (bool, Option<MutationData<R, E>>, Option<EvictionTimer>))
        requires
            old(reg).wf(),
            old(self).mutation_cache.wf_for(*old(reg)),
            old(reg).link_alive(mutation.link),
            old(reg).target_alive(old(self).mutation_cache.target),
            old(self).mutation_cache.spec_next_gen() < u64::MAX,
        ensures
            final (reg).wf(),
            final (self).mutation_cache.wf_for(*final (reg)),
            final (self).opts == old(self).opts,
            final (self).query_cache == old(self).query_cache,
            final (self).mutation_cache.target == old(self).mutation_cache.target,
            Registry::<MutateMeta<R, E>>::same_alive(*final (reg), *old(reg)),
            Registry::<MutateMeta<R, E>>::same_assoc_except(
                *final (reg),
                *old(reg),
                mutation.link,
                old(self).mutation_cache.target,
            ),
            r.0 == online,
            final (reg).has_row(mutation.link, old(self).mutation_cache.target),
            ({
                let post = final (reg).row_value(mutation.link, old(self).mutation_cache.target);
                &&& post.data.spec_value() == (if online {
                    MutationData::<R, E>::Loading
                } else {
                    MutationData::<R, E>::Failure(MutateError::NoConnection)
                })
                &&& r.1 matches Some(p) && p == post.data.spec_value()
            }),
            old(reg).has_row(mutation.link, old(self).mutation_cache.target) ==> {
                let pre = old(reg).row_value(mutation.link, old(self).mutation_cache.target);
                let post = final (reg).row_value(mutation.link, old(self).mutation_cache.target);
                &&& final (self).mutation_cache.spec_next_gen()
                    == old(self).mutation_cache.spec_next_gen()
                &&& post.kept_but_data(pre)
                &&& r.2 is None
            },
            !old(reg).has_row(mutation.link, old(self).mutation_cache.target) ==> {
                let post = final (reg).row_value(mutation.link, old(self).mutation_cache.target);
                &&& final (self).mutation_cache.spec_next_gen()
                    == old(self).mutation_cache.spec_next_gen() + 1
                &&& post.id == old(self).mutation_cache.spec_next_gen()
                &&& post.data.listener_count() == 0
                &&& !post.cache_control.is_active()
                &&& post.cache_control.spec_cache_time() == resolve::spec_mutation_cache_time(
                    old(self).opts,
                    mutation.opts,
                )
                &&& match resolve::spec_mutation_cache_time(old(self).opts, mutation.opts) {
                    CacheTime::Duration(d) => r.2 == Some(
                        EvictionTimer { epoch: post.cache_control.spec_epoch(), delay_ms: d },
                    ),
                    CacheTime::Infinite => r.2 is None,
                }
            },
    {
        let t = self.mutation_cache.target;
        let new_data: MutationData<R, E> = if online {
            MutationData::Loading
        } else {
            MutationData::Failure(MutateError::NoConnection)
        };
        let publish = new_data.duplicate();
        let ghost reg0 = *old(reg);
        match reg.remove(mutation.link, t) {
            Some(mut meta) => {
                let ghost reg1 = *reg;
                proof {
                    reg0.lemma_row_endpoints_alive(mutation.link, t);
                }
                let _ = meta.data.set(new_data);
                reg.insert(mutation.link, t, meta);
                proof {
                    Registry::<MutateMeta<R, E>>::lemma_assoc_except_trans(
                        *reg,
                        reg1,
                        reg0,
                        mutation.link,
                        t,
                    );
                    Registry::<MutateMeta<R, E>>::lemma_alive_trans(*reg, reg1, reg0);
                    assert forall|l: WeakLink| #[trigger]
                        reg.has_row(l, t) implies reg.row_value(l, t).id
                        < self.mutation_cache.spec_next_gen() && reg.row_value(l, t).wf() by {
                        assert(reg0.has_row(l, t));
                    }
                }
                (online, Some(publish), None)
            },
            None => {
                let ghost reg1 = *reg;
                let id = self.mutation_cache.next_id();
                let cache_time = resolve::resolve_mutation_cache_time(&self.opts, &mutation.opts);
                let (cc, timer) = CacheControl::new(cache_time);
                let meta = MutateMeta::<R, E> {
                    data: Listenable::new(new_data),
                    id,
                    cache_control: cc,
                };
                reg.insert(mutation.link, t, meta);
                proof {
                    Registry::<MutateMeta<R, E>>::lemma_assoc_except_trans(
                        *reg,
                        reg1,
                        reg0,
                        mutation.link,
                        t,
                    );
                    Registry::<MutateMeta<R, E>>::lemma_alive_trans(*reg, reg1, reg0);
                    assert forall|l: WeakLink| #[trigger]
                        reg.has_row(l, t) implies reg.row_value(l, t).id
                        < self.mutation_cache.spec_next_gen() && reg.row_value(l, t).wf() by {
                        if l != mutation.link {
                            assert(reg0.has_row(l, t));
                        }
                    }
                }
                (online, Some(publish), timer)
            },
        }
    }

    /// Completes a mutation: `result` is what the mutation function
    /// returned. The outcome is published into the entry (if the entry
    /// still exists — one evicted mid-flight is not recreated) and handed
    /// back to the caller, the error wrapped as a function error.
    pub fn mutate_complete<R, E>(
        &self,
        reg: &mut Registry<MutateMeta<R, E>>,
        mutation: &Mutation,
        result: Result<R, E>,
    ) -> (r: (Result<Rc<R>, MutateError<E>>, Option<MutationData<R, E>>))
        requires
            old(reg).wf(),
            self.mutation_cache.wf_for(*old(reg)),
        ensures
            final (reg).wf(),
            self.mutation_cache.wf_for(*final (reg)),
            Registry::<MutateMeta<R, E>>::same_alive(*final (reg), *old(reg)),
            Registry::<MutateMeta<R, E>>::same_assoc_except(
                *final (reg),
                *old(reg),
                mutation.link,
                self.mutation_cache.target,
            ),
            match result {
                Ok(v) => r.0 matches Ok(rv) && rv == v,
                Err(e) => r.0 matches Err(MutateError::FnError(re)) && re == e,
            },
            !old(reg).has_row(mutation.link, self.mutation_cache.target) ==> *final (reg) == *old(
                reg,
            ) && r.1 is None,
            old(reg).has_row(mutation.link, self.mutation_cache.target) ==> {
                let pre = old(reg).row_value(mutation.link, self.mutation_cache.target);
                let post = final (reg).row_value(mutation.link, self.mutation_cache.target);
                &&& final (reg).has_row(mutation.link, self.mutation_cache.target)
                &&& post.kept_but_data(pre)
                &&& match result {
                    Ok(v) => post.data.spec_value() matches MutationData::Success(rv) && rv == v,
                    Err(e) => post.data.spec_value() matches MutationData::Failure(
                        MutateError::FnError(re),
                    ) && re == e,
                }
                &&& r.1 matches Some(p) && p == post.data.spec_value()
            },
    {
        let t = self.mutation_cache.target;
        let (ret, stored): (Result<Rc<R>, MutateError<E>>, MutationData<R, E>) = match result {
            Ok(v) => {
                let rc = Rc::new(v);
                let stored = MutationData::Success(rc_clone(&rc));
                (Ok(rc), stored)
            },
            Err(e) => {
                let rc = Rc::new(e);
                let stored = MutationData::Failure(MutateError::FnError(rc_clone(&rc)));
                (Err(MutateError::FnError(rc)), stored)
            },
        };
        let present = reg.contains_row(mutation.link, t);
        if !present {
            return (ret, None);
        }
        let ghost reg0 = *old(reg);
        match reg.remove(mutation.link, t) {
            Some(mut meta) => {
                let ghost reg1 = *reg;
                proof {
                    reg0.lemma_row_endpoints_alive(mutation.link, t);
                }
                let publish = stored.duplicate();
                let _ = meta.data.set(stored);
                reg.insert(mutation.link, t, meta);
                proof {
                    Registry::<MutateMeta<R, E>>::lemma_assoc_except_trans(
                        *reg,
                        reg1,
                        reg0,
                        mutation.link,
                        t,
                    );
                    Registry::<MutateMeta<R, E>>::lemma_alive_trans(*reg, reg1, reg0);
                    assert forall|l: WeakLink| #[trigger]
                        reg.has_row(l, t) implies reg.row_value(l, t).id
                        < self.mutation_cache.spec_next_gen() && reg.row_value(l, t).wf() by {
                        assert(reg0.has_row(l, t));
                    }
                }
                (ret, Some(publish))
            },
            None => {
                proof {
                    assert(false);
                }
                (ret, None)
            },
        }
    }

    /// Subscribes to updates for `mutation` on this client: the entry is
    /// created idle if it does not exist, marked active (cancelling any
    /// pending eviction), and a fresh listener handle is issued.
    pub fn subscribe_mutation<R, E>(
        &mut self,
        reg: &mut Registry<MutateMeta<R, E>>,
        mutation: &Mutation,
    ) -> (r: Guard)
        requires
            old(reg).wf(),
            old(self).mutation_cache.wf_for(*old(reg)),
            old(reg).link_alive(mutation.link),
            old(reg).target_alive(old(self).mutation_cache.target),
            old(self).mutation_cache.spec_next_gen() < u64::MAX,
            old(reg).has_row(mutation.link, old(self).mutation_cache.target) ==> old(
                reg,
            ).row_value(mutation.link, old(self).mutation_cache.target).data.spec_next_handle()
                < u64::MAX,
        ensures
            final (reg).wf(),
            final (self).mutation_cache.wf_for(*final (reg)),
            final (self).opts == old(self).opts,
            final (self).query_cache == old(self).query_cache,
            final (self).mutation_cache.target == old(self).mutation_cache.target,
            Registry::<MutateMeta<R, E>>::same_alive(*final (reg), *old(reg)),
            Registry::<MutateMeta<R, E>>::same_assoc_except(
                *final (reg),
                *old(reg),
                mutation.link,
                old(self).mutation_cache.target,
            ),
            final (reg).has_row(mutation.link, old(self).mutation_cache.target),
            r.link == mutation.link,
            ({
                let post = final (reg).row_value(mutation.link, old(self).mutation_cache.target);
                &&& post.cache_control.is_active()
                &&& forall|e: u64| !(#[trigger] post.cache_control.should_evict_at(e))
                &&& post.data.has_listener(r.handle)
            }),
            old(reg).has_row(mutation.link, old(self).mutation_cache.target) ==> {
                let pre = old(reg).row_value(mutation.link, old(self).mutation_cache.target);
                let post = final (reg).row_value(mutation.link, old(self).mutation_cache.target);
                &&& final (self).mutation_cache.spec_next_gen()
                    == old(self).mutation_cache.spec_next_gen()
                &&& post.id == pre.id
                &&& post.data.spec_value() == pre.data.spec_value()
                &&& post.data.listener_count() == pre.data.listener_count() + 1
                &&& !pre.data.has_listener(r.handle)
                &&& post.cache_control.spec_cache_time() == pre.cache_control.spec_cache_time()
            },
            !old(reg).has_row(mutation.link, old(self).mutation_cache.target) ==> {
                let post = final (reg).row_value(mutation.link, old(self).mutation_cache.target);
                &&& final (self).mutation_cache.spec_next_gen()
                    == old(self).mutation_cache.spec_next_gen() + 1
                &&& post.id == old(self).mutation_cache.spec_next_gen()
                &&& post.data.spec_value() == MutationData::<R, E>::Idle
                &&& post.data.listener_count() == 1
                &&& post.cache_control.spec_cache_time() == resolve::spec_mutation_cache_time(
                    old(self).opts,
                    mutation.opts,
                )
            },
    {
        let t = self.mutation_cache.target;
        let ghost reg0 = *old(reg);
        match reg.remove(mutation.link, t) {
            Some(mut meta) => {
                let ghost reg1 = *reg;
                proof {
                    reg0.lemma_row_endpoints_alive(mutation.link, t);
                }
                let _ = meta.cache_control.set_active(true);
                let handle = meta.data.add_listener();
                reg.insert(mutation.link, t, meta);
                proof {
                    Registry::<MutateMeta<R, E>>::lemma_assoc_except_trans(
                        *reg,
                        reg1,
                        reg0,
                        mutation.link,
                        t,
                    );
                    Registry::<MutateMeta<R, E>>::lemma_alive_trans(*reg, reg1, reg0);
                    assert forall|l: WeakLink| #[trigger]
                        reg.has_row(l, t) implies reg.row_value(l, t).id
                        < self.mutation_cache.spec_next_gen() && reg.row_value(l, t).wf() by {
                        assert(reg0.has_row(l, t));
                    }
                }
                Guard { link: mutation.link, handle }
            },
            None => {
                let ghost reg1 = *reg;
                let id = self.mutation_cache.next_id();
                let cache_time = resolve::resolve_mutation_cache_time(&self.opts, &mutation.opts);
                let (cc, _) = CacheControl::new(cache_time);
                let mut cc = cc;
                let _ = cc.set_active(true);
                let mut data = Listenable::new(MutationData::Idle);
                let handle = data.add_listener();
                let meta = MutateMeta::<R, E> { data, id, cache_control: cc };
                reg.insert(mutation.link, t, meta);
                proof {
                    Registry::<MutateMeta<R, E>>::lemma_assoc_except_trans(
                        *reg,
                        reg1,
                        reg0,
                        mutation.link,
                        t,
                    );
                    Registry::<MutateMeta<R, E>>::lemma_alive_trans(*reg, reg1, reg0);
                    assert forall|l: WeakLink| #[trigger]
                        reg.has_row(l, t) implies reg.row_value(l, t).id
                        < self.mutation_cache.spec_next_gen() && reg.row_value(l, t).wf() by {
                        if l != mutation.link {
                            assert(reg0.has_row(l, t));
                        }
                    }
                }
                Guard { link: mutation.link, handle }
            },
        }
    }

    /// Ends the mutation subscription `guard`: its listener is removed and,
    /// when the last subscriber is gone, the entry goes idle — under a
    /// finite cache time this starts the idle timer, which the caller must
    /// schedule.
    pub fn unsubscribe_mutation<R, E>(
        &self,
        reg: &mut Registry<MutateMeta<R, E>>,
        guard: Guard,
    ) -> (r: Option<EvictionTimer>)
        requires
            old(reg).wf(),
            self.mutation_cache.wf_for(*old(reg)),
            old(reg).has_row(guard.link, self.mutation_cache.target) ==> old(reg).row_value(
                guard.link,
                self.mutation_cache.target,
            ).cache_control.spec_epoch() < u64::MAX,
        ensures
            final (reg).wf(),
            self.mutation_cache.wf_for(*final (reg)),
            Registry::<MutateMeta<R, E>>::same_alive(*final (reg), *old(reg)),
            Registry::<MutateMeta<R, E>>::same_assoc_except(
                *final (reg),
                *old(reg),
                guard.link,
                self.mutation_cache.target,
            ),
            !old(reg).has_row(guard.link, self.mutation_cache.target) ==> *final (reg) == *old(reg)
                && r is None,
            old(reg).has_row(guard.link, self.mutation_cache.target) ==> {
                let pre = old(reg).row_value(guard.link, self.mutation_cache.target);
                let post = final (reg).row_value(guard.link, self.mutation_cache.target);
                &&& final (reg).has_row(guard.link, self.mutation_cache.target)
                &&& post.id == pre.id
                &&& post.data.spec_value() == pre.data.spec_value()
                &&& !post.data.has_listener(guard.handle)
                &&& post.data.listener_count() == (if pre.data.has_listener(guard.handle) {
                    pre.data.listener_count() - 1
                } else {
                    pre.data.listener_count() as int
                })
                &&& post.cache_control.spec_cache_time() == pre.cache_control.spec_cache_time()
                &&& (post.data.listener_count() > 0 ==> post.cache_control == pre.cache_control
                    && r is None)
                &&& (post.data.listener_count() == 0 ==> {
                    &&& !post.cache_control.is_active()
                    &&& (!pre.cache_control.is_active() ==> post.cache_control
                        == pre.cache_control && r is None)
                    &&& (pre.cache_control.is_active() ==> match pre.cache_control.spec_cache_time() {
                        CacheTime::Duration(d) => {
                            &&& r == Some(
                                EvictionTimer {
                                    epoch: post.cache_control.spec_epoch(),
                                    delay_ms: d,
                                },
                            )
                            &&& post.cache_control.should_evict_at(
                                post.cache_control.spec_epoch(),
                            )
                        },
                        CacheTime::Infinite => r is None && forall|e: u64|
                            !(#[trigger] post.cache_control.should_evict_at(e)),
                    })
                })
            },
    {
        let t = self.mutation_cache.target;
        let present = reg.contains_row(guard.link, t);
        if !present {
            return None;
        }
        let ghost reg0 = *old(reg);
        match reg.remove(guard.link, t) {
            Some(mut meta) => {
                let ghost reg1 = *reg;
                proof {
                    reg0.lemma_row_endpoints_alive(guard.link, t);
                }
                let remaining = meta.data.remove_listener(guard.handle);
                let timer = if remaining == 0 {
                    meta.cache_control.set_active(false)
                } else {
                    None
                };
                reg.insert(guard.link, t, meta);
                proof {
                    Registry::<MutateMeta<R, E>>::lemma_assoc_except_trans(
                        *reg,
                        reg1,
                        reg0,
                        guard.link,
                        t,
                    );
                    Registry::<MutateMeta<R, E>>::lemma_alive_trans(*reg, reg1, reg0);
                    assert forall|l: WeakLink| #[trigger]
                        reg.has_row(l, t) implies reg.row_value(l, t).id
                        < self.mutation_cache.spec_next_gen() && reg.row_value(l, t).wf() by {
                        assert(reg0.has_row(l, t));
                    }
                }
                timer
            },
            None => {
                proof {
                    assert(false);
                }
                None
            },
        }
    }
}

} // verus!
