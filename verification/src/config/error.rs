//! Error classification for query and mutation error types.
//!
//! The engine itself treats a query's error type as opaque: an error value
//! is stored, retried against and handed back, never inspected. These traits
//! let an application attach a human-readable message and a coarse kind to
//! its own error types.

use vstd::prelude::*;

verus! {

/// A human-readable description of an error value.
pub trait ErrorDisplay {
    /// The message describing this error.
    fn err_fmt(&self) -> &'static str;
}

/// A marker for the types an application uses to classify its errors.
pub trait ErrorKind {

}

/// An error type usable as a query or mutation error.
pub trait Error: ErrorDisplay {

}

impl ErrorDisplay for () {
    fn err_fmt(&self) -> (r: &'static str)
        ensures
            r@ == "no error type"@,
    {
        "no error type"
    }
}

impl Error for () {

}

} // verus!
