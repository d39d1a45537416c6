//! A client-side data-fetch cache and retry orchestration engine.
//!
//! Queries (idempotent async reads) and mutations (async writes) are executed
//! through a [`client::QueryClient`]; results are cached per logical identity
//! in a [`weak_link::Registry`], published through an observable cell
//! ([`listenable::Listenable`]), retried on failure according to a resolved
//! [`config::retry::RetryConfig`], and evicted after a configurable idle
//! period by a [`cache::CacheControl`].
//!
//! The engine is a synchronous state machine: every suspension point of the
//! orchestration (running the query function, sleeping before a retry,
//! waiting for connectivity, waiting for an eviction timer) is a decision
//! handed back to the caller, which performs the asynchronous work and feeds
//! the outcome back in. All decisions and all cache state changes are made
//! here, with contracts.

pub mod cache;
pub mod client;
pub mod config;
pub mod const_default;
pub mod handle_map;
pub mod listenable;
pub mod mutation;
pub mod query;
pub mod status;
pub mod weak_link;
