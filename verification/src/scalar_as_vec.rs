//! A uniform source: one value, present at every coordinate.

use vstd::prelude::*;

verus! {

/// Wraps a single value and answers every coordinate of every
/// dimension with that value; no coordinate is ever absent.
pub struct ScalarAsVec<T>(pub T);

} // verus!
