//! A scalar that may stand in for a multi-dimensional source of the
//! keyed family: present everywhere with its value, or absent
//! everywhere.

use vstd::prelude::*;

verus! {

/// Holds one optional value and answers every coordinate with it:
/// every coordinate is populated with the wrapped value when one is
/// held, and no coordinate is populated otherwise.
pub struct Scalar<T>(pub Option<T>);

impl<T> Scalar<T> {
    /// A scalar source populated everywhere with `value`.
    pub fn new(value: T) -> (r: Self)
        ensures
            r == (Scalar(Some(value))),
    {
        Scalar(Some(value))
    }

    /// A scalar source populated nowhere.
    pub fn none() -> (r: Self)
        ensures
            r == (Scalar(None::<T>)),
    {
        Scalar(None)
    }
}

impl<T> From<T> for Scalar<T> {
    fn from(value: T) -> (r: Self) {
        Scalar(Some(value))
    }
}

impl<T> vstd::std_specs::convert::FromSpecImpl<T> for Scalar<T> {
    open spec fn obeys_from_spec() -> bool {
        true
    }

    open spec fn from_spec(v: T) -> Self {
        Scalar(Some(v))
    }
}

} // verus!
