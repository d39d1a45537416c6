//! The observable states of queries and mutations, and the results a fetch
//! or mutate call returns.
//!
//! Cached values and errors are held behind `Rc`, so the cache, its
//! subscribers and the caller share one allocation.

use std::rc::Rc;

use vstd::prelude::*;

use crate::handle_map::Handle;

verus! {

/// Relies on std's `Rc::clone`: the returned pointer shares the allocation
/// of the argument, so it carries the same value.
#[verifier::external_body]
pub(crate) fn rc_clone<T>(v: &Rc<T>) -> (r: Rc<T>)
    ensures
        r == *v,
{
    Rc::clone(v)
}

/// The state of a query that has no result yet.
#[derive(Clone, Copy, Debug, PartialEq, Eq, Structural)]
pub enum LoadingStatus {
    /// The query is being executed.
    Loading,
    /// There is no connection and the query waits for it to return.
    Paused,
}

impl LoadingStatus {
    /// The loading status implied by the reported connectivity.
    pub open spec fn spec_from_online(online: bool) -> Self {
        if online {
            LoadingStatus::Loading
        } else {
            LoadingStatus::Paused
        }
    }

    /// The loading status implied by the reported connectivity.
    pub fn from_online(online: bool) -> (r: Self)
        ensures
            r == LoadingStatus::spec_from_online(online),
    {
        if online {
            LoadingStatus::Loading
        } else {
            LoadingStatus::Paused
        }
    }

    /// The same status as a [`QueryStatus`].
    pub open spec fn spec_as_query(self) -> QueryStatus {
        match self {
            LoadingStatus::Loading => QueryStatus::Loading,
            LoadingStatus::Paused => QueryStatus::Paused,
        }
    }

    /// The same status as a [`QueryStatus`].
    pub fn as_query(self) -> (r: QueryStatus)
        ensures
            r == self.spec_as_query(),
    {
        match self {
            LoadingStatus::Loading => QueryStatus::Loading,
            LoadingStatus::Paused => QueryStatus::Paused,
        }
    }
}

/// The fetch status of a query that already has a result.
#[derive(Clone, Copy, Debug, PartialEq, Eq, Structural)]
pub enum QueryStatus {
    /// A fetch for this query is being executed.
    Loading,
    /// There is no connection and a fetch waits for it to return.
    Paused,
    /// No fetch is in flight.
    Idle,
}

/// The cached state of a query on one client: its last result, if any, and
/// what the engine is doing about the next one.
#[derive(Debug)]
pub enum QueryData<R, E> {
    /// No result is available yet.
    Loading(LoadingStatus),
    /// The last fetch succeeded with this value.
    Success(Rc<R>, QueryStatus),
    /// The last fetch failed with this error.
    Failure(Rc<E>, QueryStatus),
}

impl<R, E> QueryData<R, E> {
    /// An owned copy of this state; the value or error is shared, not
    /// copied.
    pub fn duplicate(&self) -> (r: Self)
        ensures
            r == *self,
    {
        match self {
            QueryData::Loading(s) => QueryData::Loading(*s),
            QueryData::Success(v, s) => QueryData::Success(rc_clone(v), *s),
            QueryData::Failure(e, s) => QueryData::Failure(rc_clone(e), *s),
        }
    }

}

/// Why a mutation failed.
#[derive(Debug)]
pub enum MutateError<E> {
    /// The mutation function returned this error.
    FnError(Rc<E>),
    /// There was no connection when the mutation was initiated.
    NoConnection,
}

impl<E> MutateError<E> {
    /// An owned copy of this error; a function error is shared, not copied.
    pub fn duplicate(&self) -> (r: Self)
        ensures
            r == *self,
    {
        match self {
            MutateError::FnError(e) => MutateError::FnError(rc_clone(e)),
            MutateError::NoConnection => MutateError::NoConnection,
        }
    }

    /// A short description of this error.
    pub fn message(&self) -> (r: &'static str)
        ensures
            r@ == match self {
                MutateError::FnError(_) => "mutation returned an error"@,
                MutateError::NoConnection => "no internet connection when attempting mutation"@,
            },
    {
        match self {
            MutateError::FnError(_) => "mutation returned an error",
            MutateError::NoConnection => "no internet connection when attempting mutation",
        }
    }
}

/// The cached state of a mutation on one client.
#[derive(Debug)]
pub enum MutationData<R, E> {
    /// The mutation has not been initiated.
    Idle,
    /// The mutation is executing.
    Loading,
    /// The mutation succeeded with this value.
    Success(Rc<R>),
    /// The mutation failed.
    Failure(MutateError<E>),
}

impl<R, E> MutationData<R, E> {
    /// An owned copy of this state; the value or error is shared, not
    /// copied.
    pub fn duplicate(&self) -> (r: Self)
        ensures
            r == *self,
    {
        match self {
            MutationData::Idle => MutationData::Idle,
            MutationData::Loading => MutationData::Loading,
            MutationData::Success(v) => MutationData::Success(rc_clone(v)),
            MutationData::Failure(e) => MutationData::Failure(e.duplicate()),
        }
    }
}

impl<R, E> Default for MutationData<R, E> {
    fn default() -> (r: Self)
        ensures
            r == MutationData::<R, E>::Idle,
    {
        MutationData::Idle
    }
}

/// A ticket for a fetch that is waiting for connectivity: the engine holds
/// the continuation under this handle in the entry's pending set, and the
/// caller may await the eventual result.
#[derive(Clone, Copy, Debug, PartialEq, Eq, Structural)]
pub struct NoConnection {
    /// The pending-continuation handle in the cache entry.
    pub handle: Handle,
}

/// What a caller that awaited a [`NoConnection`] ticket eventually gets.
#[derive(Debug)]
pub enum FetchResultWaited<R, E> {
    /// As [`FetchResult::Fresh`].
    Fresh(Result<Rc<R>, Rc<E>>),
    /// As [`FetchResult::Stale`].
    Stale(Result<R, E>),
    /// As [`FetchResult::Cancelled`].
    Cancelled,
}

/// What a fetch call returns to its own caller.
#[derive(Debug)]
pub enum FetchResult<R, E> {
    /// This fetch was the latest for its identity when it completed: its
    /// result is the one cached.
    Fresh(Result<Rc<R>, Rc<E>>),
    /// A newer fetch for the same identity was started before this one
    /// completed: the result is handed back to the caller but not cached.
    Stale(Result<R, E>),
    /// There was no connection when this fetch was initiated; the ticket can
    /// be awaited for the result once the connection returns.
    NoConnection(NoConnection),
    /// A newer fetch for the same identity superseded this one before it
    /// ran, or the entry was removed.
    Cancelled,
}

} // verus!
