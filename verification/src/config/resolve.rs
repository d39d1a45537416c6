//! The configuration cascade.
//!
//! Each option is resolved by trying, in order: the option set on the query
//! or mutation itself, the client's default for that category, the client's
//! global default, and finally the process-wide default. The first layer
//! that sets a value wins; a layer that inherits falls through.

use vstd::prelude::*;

use crate::client::ClientOpts;
use crate::config::retry::RetryConfig;
use crate::config::{CacheTime, NetworkMode, SetOption};
use crate::const_default::ConstDefault;
use crate::mutation::MutationOpts;
use crate::query::QueryOpts;

verus! {

/// A marker for the types that take part in the configuration cascade.
pub trait ConfigOpt {

}

impl ConfigOpt for crate::config::CacheTime {

}

impl ConfigOpt for crate::config::NetworkMode {

}

/// The cascade: the first layer that sets a value wins, and a layer that
/// inherits falls through, down to the fixed default `dflt`.
pub open spec fn spec_resolve<T>(
    action: SetOption<T>,
    category: SetOption<T>,
    client: SetOption<T>,
    dflt: T,
) -> T {
    match action {
        SetOption::Explicit(v) => v,
        SetOption::Inherrit => match category {
            SetOption::Explicit(v) => v,
            SetOption::Inherrit => match client {
                SetOption::Explicit(v) => v,
                SetOption::Inherrit => dflt,
            },
        },
    }
}

/// Resolves one option through the cascade: the layer set on the call
/// itself, then the client's category default, then the client's global
/// default, then `dflt`.
pub fn resolve_option<T: Copy>(
    action: &SetOption<T>,
    category: &SetOption<T>,
    client: &SetOption<T>,
    dflt: T,
) -> (r: T)
    ensures
        r == spec_resolve(*action, *category, *client, dflt),
{
    match *action {
        SetOption::Explicit(v) => v,
        SetOption::Inherrit => match *category {
            SetOption::Explicit(v) => v,
            SetOption::Inherrit => match *client {
                SetOption::Explicit(v) => v,
                SetOption::Inherrit => dflt,
            },
        },
    }
}

/// The client's query-category layer for the cache time.
pub open spec fn spec_query_category_cache_time(client: ClientOpts) -> SetOption<CacheTime> {
    match client.query {
        Some(o) => o.cache_time,
        None => SetOption::Inherrit,
    }
}

/// The client's query-category layer for the network mode.
pub open spec fn spec_query_category_network_mode(client: ClientOpts) -> SetOption<NetworkMode> {
    match client.query {
        Some(o) => o.network_mode,
        None => SetOption::Inherrit,
    }
}

/// The client's query-category layer for the retry configuration.
pub open spec fn spec_query_category_retry(client: ClientOpts) -> SetOption<RetryConfig> {
    match client.query {
        Some(o) => o.retry,
        None => SetOption::Inherrit,
    }
}

/// The client's mutation-category layer for the cache time.
pub open spec fn spec_mutation_category_cache_time(client: ClientOpts) -> SetOption<CacheTime> {
    match client.mutation {
        Some(o) => o.cache_time,
        None => SetOption::Inherrit,
    }
}

/// The client's mutation-category layer for the network mode.
pub open spec fn spec_mutation_category_network_mode(client: ClientOpts) -> SetOption<
    NetworkMode,
> {
    match client.mutation {
        Some(o) => o.network_mode,
        None => SetOption::Inherrit,
    }
}

/// The cache time a query fetched on this client resolves to.
pub open spec fn spec_query_cache_time(client: ClientOpts, query: QueryOpts) -> CacheTime {
    spec_resolve(
        query.cache_time,
        spec_query_category_cache_time(client),
        client.cache_time,
        CacheTime::spec_default(),
    )
}

/// The network mode a query fetched on this client resolves to.
pub open spec fn spec_query_network_mode(client: ClientOpts, query: QueryOpts) -> NetworkMode {
    spec_resolve(
        query.network_mode,
        spec_query_category_network_mode(client),
        client.network_mode,
        NetworkMode::spec_default(),
    )
}

/// The retry configuration a query fetched on this client resolves to.
pub open spec fn spec_query_retry(client: ClientOpts, query: QueryOpts) -> RetryConfig {
    spec_resolve(
        query.retry,
        spec_query_category_retry(client),
        client.retry,
        RetryConfig::spec_default(),
    )
}

/// The cache time a mutation executed on this client resolves to.
pub open spec fn spec_mutation_cache_time(client: ClientOpts, mutation: MutationOpts) -> CacheTime {
    spec_resolve(
        mutation.cache_time,
        spec_mutation_category_cache_time(client),
        client.cache_time,
        CacheTime::spec_default(),
    )
}

/// The network mode a mutation executed on this client resolves to.
pub open spec fn spec_mutation_network_mode(
    client: ClientOpts,
    mutation: MutationOpts,
) -> NetworkMode {
    spec_resolve(
        mutation.network_mode,
        spec_mutation_category_network_mode(client),
        client.network_mode,
        NetworkMode::spec_default(),
    )
}

fn query_category_cache_time(client: &ClientOpts) -> (r: SetOption<CacheTime>)
    ensures
        r == spec_query_category_cache_time(*client),
{
    match client.query {
        Some(o) => o.cache_time,
        None => SetOption::Inherrit,
    }
}

/// Resolves the cache time for a query fetched on this client.
pub fn resolve_query_cache_time(client: &ClientOpts, query: &QueryOpts) -> (r: CacheTime)
    ensures
        r == spec_query_cache_time(*client, *query),
{
    let category = query_category_cache_time(client);
    resolve_option(&query.cache_time, &category, &client.cache_time, CacheTime::const_default())
}

/// Resolves the network mode for a query fetched on this client.
pub fn resolve_query_network_mode(client: &ClientOpts, query: &QueryOpts) -> (r: NetworkMode)
    ensures
        r == spec_query_network_mode(*client, *query),
{
    let category = match client.query {
        Some(o) => o.network_mode,
        None => SetOption::Inherrit,
    };
    resolve_option(
        &query.network_mode,
        &category,
        &client.network_mode,
        NetworkMode::const_default(),
    )
}

/// Resolves the retry configuration for a query fetched on this client.
pub fn resolve_retry(client: &ClientOpts, query: &QueryOpts) -> (r: RetryConfig)
    ensures
        r == spec_query_retry(*client, *query),
{
    let category = match client.query {
        Some(o) => o.retry,
        None => SetOption::Inherrit,
    };
    resolve_option(&query.retry, &category, &client.retry, RetryConfig::const_default())
}

/// Resolves the cache time for a mutation executed on this client.
pub fn resolve_mutation_cache_time(client: &ClientOpts, mutation: &MutationOpts) -> (r: CacheTime)
    ensures
        r == spec_mutation_cache_time(*client, *mutation),
{
    let category = match client.mutation {
        Some(o) => o.cache_time,
        None => SetOption::Inherrit,
    };
    resolve_option(&mutation.cache_time, &category, &client.cache_time, CacheTime::const_default())
}

/// Resolves the network mode for a mutation executed on this client.
pub fn resolve_mutation_network_mode(client: &ClientOpts, mutation: &MutationOpts) -> (r:
    NetworkMode)
    ensures
        r == spec_mutation_network_mode(*client, *mutation),
{
    let category = match client.mutation {
        Some(o) => o.network_mode,
        None => SetOption::Inherrit,
    };
    resolve_option(
        &mutation.network_mode,
        &category,
        &client.network_mode,
        NetworkMode::const_default(),
    )
}

} // verus!
