//! The configuration cascade: per-call override, then the client's category
//! default, then the client's global default, then the process default.

use sycamore_query::client::ClientOpts;
use sycamore_query::config::resolve::{
    resolve_mutation_cache_time, resolve_query_cache_time, resolve_query_network_mode,
    resolve_retry,
};
use sycamore_query::config::retry::{RetryConfig, RetryPolicy};
use sycamore_query::config::{CacheTime, NetworkMode, SetOption};
use sycamore_query::const_default::const_default;
use sycamore_query::mutation::MutationOpts;
use sycamore_query::query::QueryOpts;

#[test]
fn per_call_option_wins() {
    let client = ClientOpts::new()
        .set_cache_time(CacheTime::Duration(1))
        .set_query(QueryOpts::new().set_cache_time(CacheTime::Duration(2)));
    let query = QueryOpts::new().set_cache_time(CacheTime::Duration(3));
    assert_eq!(resolve_query_cache_time(&client, &query), CacheTime::Duration(3));
}

#[test]
fn category_default_wins_over_global() {
    let client = ClientOpts::new()
        .set_cache_time(CacheTime::Duration(1))
        .set_query(QueryOpts::new().set_cache_time(CacheTime::Duration(2)));
    let query = QueryOpts::new();
    assert_eq!(resolve_query_cache_time(&client, &query), CacheTime::Duration(2));
}

#[test]
fn global_default_wins_over_process_default() {
    let client = ClientOpts::new().set_cache_time(CacheTime::Infinite);
    let query = QueryOpts::new();
    assert_eq!(resolve_query_cache_time(&client, &query), CacheTime::Infinite);

    // a category layer that itself inherits falls through to the global one
    let client2 = ClientOpts::new()
        .set_cache_time(CacheTime::Infinite)
        .set_query(QueryOpts::new());
    assert_eq!(resolve_query_cache_time(&client2, &query), CacheTime::Infinite);
}

#[test]
fn process_defaults_when_all_layers_inherit() {
    let client = ClientOpts::new();
    let query = QueryOpts::new();
    // five minutes, Online, three retries
    assert_eq!(resolve_query_cache_time(&client, &query), CacheTime::Duration(5 * 60 * 1000));
    assert_eq!(resolve_query_network_mode(&client, &query), NetworkMode::Online);
    assert_eq!(resolve_retry(&client, &query).policy, RetryPolicy::Num(3));
}

#[test]
fn retry_cascade_layers() {
    let cfg_query = RetryConfig::const_default().num(9);
    let cfg_category = RetryConfig::const_default().num(8);
    let cfg_client = RetryConfig::const_default().num(7);

    let client = ClientOpts::new()
        .set_retry(cfg_client)
        .set_query(QueryOpts::new().set_retry(cfg_category));

    let q_with = QueryOpts::new().set_retry(cfg_query);
    assert_eq!(resolve_retry(&client, &q_with).policy, RetryPolicy::Num(9));

    let q_without = QueryOpts::new();
    assert_eq!(resolve_retry(&client, &q_without).policy, RetryPolicy::Num(8));

    let client_no_category = ClientOpts::new().set_retry(cfg_client);
    assert_eq!(resolve_retry(&client_no_category, &q_without).policy, RetryPolicy::Num(7));
}

#[test]
fn mutation_category_is_separate_from_query_category() {
    let client = ClientOpts::new()
        .set_query(QueryOpts::new().set_cache_time(CacheTime::Duration(111)))
        .set_mutation(MutationOpts::new().set_cache_time(CacheTime::Duration(222)));
    assert_eq!(
        resolve_query_cache_time(&client, &QueryOpts::new()),
        CacheTime::Duration(111)
    );
    assert_eq!(
        resolve_mutation_cache_time(&client, &MutationOpts::new()),
        CacheTime::Duration(222)
    );
}

#[test]
fn network_mode_should_try() {
    assert!(NetworkMode::Always.should_try(1));
    assert!(NetworkMode::Always.should_try(5));
    assert!(NetworkMode::OfflineFirst.should_try(1));
    assert!(!NetworkMode::OfflineFirst.should_try(2));
    assert!(!NetworkMode::Online.should_try(1));
}

#[test]
fn set_option_constructors() {
    assert_eq!(SetOption::<u32>::inherrit(), SetOption::Inherrit);
    assert_eq!(SetOption::set(5_u32), SetOption::Explicit(5));
    let d: CacheTime = const_default();
    assert_eq!(d, CacheTime::Duration(5 * 60 * 1000));
    let m: NetworkMode = const_default();
    assert_eq!(m, NetworkMode::Online);
}

#[test]
fn opts_conversions_carry_the_shared_fields() {
    let q = QueryOpts::new()
        .set_cache_time(CacheTime::Duration(42))
        .set_network_mode(NetworkMode::Always);
    let m = MutationOpts::from(q);
    assert_eq!(m.cache_time, SetOption::Explicit(CacheTime::Duration(42)));
    assert_eq!(m.network_mode, SetOption::Explicit(NetworkMode::Always));
    let q2 = QueryOpts::from(m);
    assert_eq!(q2.cache_time, SetOption::Explicit(CacheTime::Duration(42)));

    let c = ClientOpts::from(q2);
    assert_eq!(c.cache_time, SetOption::Explicit(CacheTime::Duration(42)));
    assert!(c.query.is_none());
    assert!(c.mutation.is_none());
}
