//! The fetch and mutate protocols end to end: isolation between clients,
//! staleness, retry exhaustion, eviction, connectivity pauses, and the
//! mutation lifecycle.

use sycamore_query::cache::EvictionTimer;
use sycamore_query::client::{ClientOpts, FetchStep, QueryClient};
use sycamore_query::config::retry::RetryConfig;
use sycamore_query::config::CacheTime;
use sycamore_query::mutation::{MutateMeta, Mutation};
use sycamore_query::query::{FetchMeta, Query, QueryOpts};
use sycamore_query::status::{
    FetchResult, LoadingStatus, MutateError, MutationData, QueryData, QueryStatus,
};
use sycamore_query::weak_link::Registry;

type QReg = Registry<FetchMeta<i32, ()>>;
type MReg = Registry<MutateMeta<i32, ()>>;

fn new_client(reg: &mut QReg, mreg: &mut MReg, opts: ClientOpts) -> QueryClient {
    QueryClient::new(opts, reg.new_target(), mreg.new_target())
}

/// Drives one whole fetch of `query` whose function immediately returns
/// `result`, with connectivity up and no retries exercised.
fn fetch_once(
    client: &mut QueryClient,
    reg: &mut QReg,
    query: &Query,
    result: Result<i32, ()>,
) -> FetchResult<i32, ()> {
    let (id, _timer) = client.fetch_start(reg, query, true);
    let (proceed, _publish) = client.fetch_claim(reg, query, id, true);
    assert!(proceed);
    assert!(!client.should_pause(query, true, 1));
    let (step, _publish) = client.fetch_commit(reg, query, id, 1, result, false, 0);
    match step {
        FetchStep::Done(r) => r,
        FetchStep::Retry(_) => panic!("no retry expected"),
    }
}

fn check(res: FetchResult<i32, ()>, exp: i32) {
    match res {
        FetchResult::Fresh(Ok(f)) => assert_eq!(exp, *f),
        _ => panic!("expected a fresh success"),
    }
}

#[test]
fn multiple_client_query() {
    let mut reg: QReg = Registry::new();
    let mut mreg: MReg = Registry::new();
    let mut client1 = new_client(&mut reg, &mut mreg, ClientOpts::new());
    let mut client2 = new_client(&mut reg, &mut mreg, ClientOpts::new());
    let query1 = Query::new(reg.new_link());
    let query2 = Query::new(reg.new_link());

    check(fetch_once(&mut client1, &mut reg, &query1, Ok(12345_i32)), 12345_i32);
    check(fetch_once(&mut client2, &mut reg, &query1, Ok(12345_i32)), 12345_i32);
    check(fetch_once(&mut client1, &mut reg, &query2, Ok(67890_i32)), 67890_i32);
    check(fetch_once(&mut client2, &mut reg, &query2, Ok(67890_i32)), 67890_i32);

    // each client's cache holds its own entry for each query
    for client in [&client1, &client2] {
        match client.query_data(&reg, &query1) {
            Some(QueryData::Success(v, QueryStatus::Idle)) => assert_eq!(*v, 12345),
            _ => panic!("expected a cached success for query1"),
        }
        match client.query_data(&reg, &query2) {
            Some(QueryData::Success(v, QueryStatus::Idle)) => assert_eq!(*v, 67890),
            _ => panic!("expected a cached success for query2"),
        }
    }
}

#[test]
fn clients_with_distinct_caches_are_isolated() {
    let mut reg: QReg = Registry::new();
    let mut mreg: MReg = Registry::new();
    let mut client1 = new_client(&mut reg, &mut mreg, ClientOpts::new());
    let client2 = new_client(&mut reg, &mut mreg, ClientOpts::new());
    let query = Query::new(reg.new_link());

    check(fetch_once(&mut client1, &mut reg, &query, Ok(7)), 7);
    // the second client never fetched: it sees nothing, not client1's value
    assert!(client2.query_data(&reg, &query).is_none());

    // removing client1's entry does not create or destroy anything for client2
    let removed = client1.query_cache().remove_query(&mut reg, &query);
    assert!(matches!(removed, Some(QueryData::Success(_, _))));
    assert!(client1.query_data(&reg, &query).is_none());
    assert!(client2.query_data(&reg, &query).is_none());
}

#[test]
fn staleness_newer_fetch_wins() {
    let mut reg: QReg = Registry::new();
    let mut mreg: MReg = Registry::new();
    let mut client = new_client(&mut reg, &mut mreg, ClientOpts::new());
    let query = Query::new(reg.new_link());

    // fetch A starts, then fetch B starts for the same identity
    let (id_a, _) = client.fetch_start(&mut reg, &query, true);
    let (id_b, _) = client.fetch_start(&mut reg, &query, true);
    assert_ne!(id_a, id_b);

    // B runs and completes first
    let (proceed_b, _) = client.fetch_claim(&mut reg, &query, id_b, true);
    assert!(proceed_b);
    let (step_b, publish_b) = client.fetch_commit(&mut reg, &query, id_b, 1, Ok(222), false, 0);
    match step_b {
        FetchStep::Done(FetchResult::Fresh(Ok(v))) => assert_eq!(*v, 222),
        _ => panic!("B should be fresh"),
    }
    // subscribers are notified with B's data
    match publish_b {
        Some(QueryData::Success(v, QueryStatus::Idle)) => assert_eq!(*v, 222),
        _ => panic!("B's result should be published"),
    }

    // A completes afterwards: its caller gets Stale(result_of_A), the cache
    // is untouched and nothing is published
    let (step_a, publish_a) = client.fetch_commit(&mut reg, &query, id_a, 1, Ok(111), false, 0);
    match step_a {
        FetchStep::Done(FetchResult::Stale(Ok(v))) => assert_eq!(v, 111),
        _ => panic!("A should be stale"),
    }
    assert!(publish_a.is_none());

    // the cache holds B's result
    match client.query_data(&reg, &query) {
        Some(QueryData::Success(v, _)) => assert_eq!(*v, 222),
        _ => panic!("cache should hold B's result"),
    }

    // a retry of A would be cancelled at its claim
    let (proceed_a, publish) = client.fetch_claim(&mut reg, &query, id_a, true);
    assert!(!proceed_a);
    assert!(publish.is_none());
}

#[test]
fn retry_exhaustion_three_attempts() {
    let mut reg: QReg = Registry::new();
    let mut mreg: MReg = Registry::new();
    let mut client = new_client(&mut reg, &mut mreg, ClientOpts::new());
    let opts = QueryOpts::new().set_retry(RetryConfig::const_default().num(2));
    let query = Query::new_with_opts(reg.new_link(), opts);

    let (id, _) = client.fetch_start(&mut reg, &query, true);
    let mut invocations: u32 = 0;
    let mut delays: Vec<u64> = Vec::new();
    let mut count: u32 = 1;
    let final_step = loop {
        let (proceed, _) = client.fetch_claim(&mut reg, &query, id, true);
        assert!(proceed);
        // the query function runs — and always errors
        invocations += 1;
        let (step, publish) = client.fetch_commit(&mut reg, &query, id, count, Err(()), false, 0);
        assert!(publish.is_some());
        match step {
            FetchStep::Retry(d) => {
                delays.push(d);
                count += 1;
            }
            FetchStep::Done(r) => break r,
        }
    };

    // exactly 3 invocations: 1 initial + 2 retries, delayed 1000 then 2000 ms
    assert_eq!(invocations, 3);
    assert_eq!(delays, vec![1000, 2000]);
    assert!(matches!(final_step, FetchResult::Fresh(Err(_))));
    // the terminal error is the published status
    match client.query_data(&reg, &query) {
        Some(QueryData::Failure(_, QueryStatus::Idle)) => {}
        _ => panic!("terminal error should be cached with idle status"),
    }
}

#[test]
fn retrying_failure_is_published_as_loading() {
    let mut reg: QReg = Registry::new();
    let mut mreg: MReg = Registry::new();
    let mut client = new_client(&mut reg, &mut mreg, ClientOpts::new());
    let query = Query::new(reg.new_link());

    let (id, _) = client.fetch_start(&mut reg, &query, true);
    let (proceed, _) = client.fetch_claim(&mut reg, &query, id, true);
    assert!(proceed);
    let (step, publish) = client.fetch_commit(&mut reg, &query, id, 1, Err(()), false, 0);
    assert!(matches!(step, FetchStep::Retry(1000)));
    // the error is visible while the next attempt is pending
    assert!(matches!(publish, Some(QueryData::Failure(_, QueryStatus::Loading))));
}

#[test]
fn eviction_after_idle_timeout() {
    let mut reg: QReg = Registry::new();
    let mut mreg: MReg = Registry::new();
    let mut client = new_client(&mut reg, &mut mreg, ClientOpts::new());
    let opts = QueryOpts::new().set_cache_time(CacheTime::Duration(100));
    let query = Query::new_with_opts(reg.new_link(), opts);

    // creating the entry with zero subscribers starts the idle timer
    let (id, timer) = client.fetch_start(&mut reg, &query, true);
    let timer: EvictionTimer = timer.unwrap();
    assert_eq!(timer.delay_ms, 100);
    let (_, _) = client.fetch_commit(&mut reg, &query, id, 1, Ok(1), false, 0);

    // the timer elapses with still no subscriber: the entry is removed
    assert!(client.query_cache().evict_expired(&mut reg, query.link, timer.epoch));
    assert!(client.query_data(&reg, &query).is_none());
}

#[test]
fn resubscribing_cancels_pending_eviction() {
    let mut reg: QReg = Registry::new();
    let mut mreg: MReg = Registry::new();
    let mut client = new_client(&mut reg, &mut mreg, ClientOpts::new());
    let opts = QueryOpts::new().set_cache_time(CacheTime::Duration(100));
    let query = Query::new_with_opts(reg.new_link(), opts);

    let (_id, timer) = client.fetch_start(&mut reg, &query, true);
    let timer = timer.unwrap();

    // a subscriber arrives before the timer fires
    let guard = client.subscribe_query(&mut reg, &query, true);

    // the pending timer fires: it must not evict
    assert!(!client.query_cache().evict_expired(&mut reg, query.link, timer.epoch));
    assert!(client.query_data(&reg, &query).is_some());

    // the last unsubscribe starts a fresh idle period with a new epoch
    let timer2 = client.unsubscribe_query(&mut reg, guard).unwrap();
    assert_eq!(timer2.delay_ms, 100);
    assert_ne!(timer.epoch, timer2.epoch);
    // the stale timer still cannot evict; the fresh one can
    assert!(!client.query_cache().evict_expired(&mut reg, query.link, timer.epoch));
    assert!(client.query_cache().evict_expired(&mut reg, query.link, timer2.epoch));
    assert!(client.query_data(&reg, &query).is_none());
}

#[test]
fn subscription_counts_drive_activity() {
    let mut reg: QReg = Registry::new();
    let mut mreg: MReg = Registry::new();
    let mut client = new_client(&mut reg, &mut mreg, ClientOpts::new());
    let opts = QueryOpts::new().set_cache_time(CacheTime::Duration(100));
    let query = Query::new_with_opts(reg.new_link(), opts);

    let g1 = client.subscribe_query(&mut reg, &query, true);
    let g2 = client.subscribe_query(&mut reg, &query, true);
    assert_ne!(g1.handle, g2.handle);

    // one subscriber remains: no idle timer yet
    assert!(client.unsubscribe_query(&mut reg, g1).is_none());
    // the last one leaves: the idle timer starts
    let timer = client.unsubscribe_query(&mut reg, g2).unwrap();
    assert_eq!(timer.delay_ms, 100);
    // unsubscribing with a stale guard afterwards changes nothing
    assert!(client.unsubscribe_query(&mut reg, g1).is_none());
}

#[test]
fn infinite_cache_time_never_evicts() {
    let mut reg: QReg = Registry::new();
    let mut mreg: MReg = Registry::new();
    let mut client = new_client(&mut reg, &mut mreg, ClientOpts::new());
    let opts = QueryOpts::new().set_cache_time(CacheTime::Infinite);
    let link = reg.new_link();
    let query = Query::new_with_opts(link, opts);

    let (_id, timer) = client.fetch_start(&mut reg, &query, true);
    assert!(timer.is_none());
    let guard = client.subscribe_query(&mut reg, &query, true);
    assert!(client.unsubscribe_query(&mut reg, guard).is_none());
    assert!(client.query_data(&reg, &query).is_some());
}

#[test]
fn offline_fetch_pauses_and_resumes() {
    let mut reg: QReg = Registry::new();
    let mut mreg: MReg = Registry::new();
    let mut client = new_client(&mut reg, &mut mreg, ClientOpts::new());
    let query = Query::new(reg.new_link());

    // connectivity is down; the default network mode pauses
    let (id, _) = client.fetch_start(&mut reg, &query, false);
    let (proceed, publish) = client.fetch_claim(&mut reg, &query, id, false);
    assert!(proceed);
    // the entry was created already paused, so no extra publish
    assert!(publish.is_none());
    match client.query_data(&reg, &query) {
        Some(QueryData::Loading(LoadingStatus::Paused)) => {}
        _ => panic!("the entry should be paused"),
    }
    assert!(client.should_pause(&query, false, 1));

    // a continuation ticket is parked in the entry
    let ticket = client.fetch_pause(&mut reg, &query, id).unwrap();

    // connectivity returns: the continuation resumes and releases its ticket
    client.fetch_unpause(&mut reg, &query, ticket);
    let (proceed2, publish2) = client.fetch_claim(&mut reg, &query, id, true);
    assert!(proceed2);
    match publish2 {
        Some(QueryData::Loading(LoadingStatus::Loading)) => {}
        _ => panic!("resuming should publish the loading status"),
    }
    assert!(!client.should_pause(&query, true, 1));
    let (step, _) = client.fetch_commit(&mut reg, &query, id, 1, Ok(5), false, 0);
    match step {
        FetchStep::Done(FetchResult::Fresh(Ok(v))) => assert_eq!(*v, 5),
        _ => panic!("the resumed fetch should be fresh"),
    }
}

#[test]
fn pause_ticket_denied_to_superseded_fetch() {
    let mut reg: QReg = Registry::new();
    let mut mreg: MReg = Registry::new();
    let mut client = new_client(&mut reg, &mut mreg, ClientOpts::new());
    let query = Query::new(reg.new_link());

    let (id_a, _) = client.fetch_start(&mut reg, &query, false);
    let (_id_b, _) = client.fetch_start(&mut reg, &query, false);
    assert!(client.fetch_pause(&mut reg, &query, id_a).is_none());
}

#[test]
fn mutation_lifecycle_online() {
    let mut reg: QReg = Registry::new();
    let mut mreg: MReg = Registry::new();
    let mut client = new_client(&mut reg, &mut mreg, ClientOpts::new());
    let mutation = Mutation::new(mreg.new_link());

    let (proceed, publish, _timer) = client.mutate_begin(&mut mreg, &mutation, true);
    assert!(proceed);
    assert!(matches!(publish, Some(MutationData::Loading)));

    let (result, publish2) = client.mutate_complete(&mut mreg, &mutation, Ok(55));
    match result {
        Ok(v) => assert_eq!(*v, 55),
        Err(_) => panic!("the mutation succeeded"),
    }
    assert!(matches!(publish2, Some(MutationData::Success(_))));
    match client.mutation_cache.data(&mreg, &mutation) {
        Some(MutationData::Success(v)) => assert_eq!(*v, 55),
        _ => panic!("the cache should hold the success"),
    }
}

#[test]
fn mutation_offline_is_no_connection() {
    let mut reg: QReg = Registry::new();
    let mut mreg: MReg = Registry::new();
    let mut client = new_client(&mut reg, &mut mreg, ClientOpts::new());
    let mutation = Mutation::new(mreg.new_link());

    let (proceed, publish, _timer) = client.mutate_begin(&mut mreg, &mutation, false);
    assert!(!proceed);
    assert!(matches!(publish, Some(MutationData::Failure(MutateError::NoConnection))));
    match client.mutation_cache.data(&mreg, &mutation) {
        Some(MutationData::Failure(MutateError::NoConnection)) => {}
        _ => panic!("the no-connection error should be cached"),
    }
}

#[test]
fn mutation_error_is_wrapped_and_cached() {
    let mut reg: QReg = Registry::new();
    let mut mreg: MReg = Registry::new();
    let mut client = new_client(&mut reg, &mut mreg, ClientOpts::new());
    let mutation = Mutation::new(mreg.new_link());

    let (proceed, _, _) = client.mutate_begin(&mut mreg, &mutation, true);
    assert!(proceed);
    let (result, _) = client.mutate_complete(&mut mreg, &mutation, Err(()));
    match result {
        Err(MutateError::FnError(_)) => {}
        _ => panic!("the function error should be wrapped"),
    }
    assert!(matches!(
        client.mutation_cache.data(&mreg, &mutation),
        Some(MutationData::Failure(MutateError::FnError(_)))
    ));

    let removed = client.mutation_cache.remove_mutation(&mut mreg, &mutation);
    assert!(matches!(removed, Some(MutationData::Failure(MutateError::FnError(_)))));
    assert!(client.mutation_cache.data(&mreg, &mutation).is_none());
}

#[test]
fn mutation_subscriptions() {
    let mut reg: QReg = Registry::new();
    let mut mreg: MReg = Registry::new();
    let mut client = new_client(&mut reg, &mut mreg, ClientOpts::new());
    let opts = sycamore_query::mutation::MutationOpts::new()
        .set_cache_time(CacheTime::Duration(100));
    let mutation = Mutation::new_with_opts(mreg.new_link(), opts);

    let guard = client.subscribe_mutation(&mut mreg, &mutation);
    // a freshly subscribed entry is idle
    assert!(matches!(
        client.mutation_cache.data(&mreg, &mutation),
        Some(MutationData::Idle)
    ));
    let timer = client.unsubscribe_mutation(&mut mreg, guard).unwrap();
    assert_eq!(timer.delay_ms, 100);
    assert!(client.mutation_cache.evict_expired(&mut mreg, mutation.link, timer.epoch));
    assert!(client.mutation_cache.data(&mreg, &mutation).is_none());
}

#[test]
fn claim_updates_settled_status_idempotently() {
    let mut reg: QReg = Registry::new();
    let mut mreg: MReg = Registry::new();
    let mut client = new_client(&mut reg, &mut mreg, ClientOpts::new());
    let query = Query::new(reg.new_link());

    check(fetch_once(&mut client, &mut reg, &query, Ok(9)), 9);

    // a refetch begins while the connection is down: the cached value stays
    // visible but its status turns paused
    let (id, _) = client.fetch_start(&mut reg, &query, false);
    let (proceed, publish) = client.fetch_claim(&mut reg, &query, id, false);
    assert!(proceed);
    match publish {
        Some(QueryData::Success(v, QueryStatus::Paused)) => assert_eq!(*v, 9),
        _ => panic!("the settled value should be republished as paused"),
    }
    // claiming again with unchanged connectivity publishes nothing
    let (proceed2, publish2) = client.fetch_claim(&mut reg, &query, id, false);
    assert!(proceed2);
    assert!(publish2.is_none());
}
