//! A default value that is fixed once and for all, usable in contracts.

use vstd::prelude::*;

verus! {

/// A type with a single designated default value.
///
/// Unlike `Default`, the designated value is also available to
/// specifications through [`ConstDefault::spec_default`], so contracts can
/// say exactly which value a constructor falls back to.
pub trait ConstDefault: Sized {
    /// The designated default value, as seen by specifications.
    spec fn spec_default() -> Self;

    /// The designated default value.
    fn const_default() -> (r: Self)
        ensures
            r == Self::spec_default(),
    ;
}

/// The default for `T`, by way of [`ConstDefault`].
pub fn const_default<T: ConstDefault>() -> (r: T)
    ensures
        r == T::spec_default(),
{
    T::const_default()
}

} // verus!
