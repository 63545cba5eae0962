//! An empty source: absent at every coordinate.

use vstd::prelude::*;

verus! {

/// A zero-state marker answering every coordinate of every dimension
/// with absence.
pub struct EmptyVec<T>(core::marker::PhantomData<T>);

impl<T> EmptyVec<T> {
    /// The one value of this type.
    pub closed spec fn spec_new() -> Self {
        EmptyVec(core::marker::PhantomData)
    }

    /// Creates the empty source.
    pub fn new() -> (r: Self)
        ensures
            r == Self::spec_new(),
    {
        EmptyVec(core::marker::PhantomData)
    }
}

} // verus!
