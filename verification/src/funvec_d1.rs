//! One-dimensional access traits of the keyed family, with the `at`
//! naming.
//!
//! These traits are satisfied through the primitive lookup traits of
//! [`crate::impl_dim1`], exactly as the [`crate::funvec`] pair, and
//! state the same contracts under the shorter method names.

use crate::impl_dim1::{MapRef, MapRefIter, MapVal, MapValIter};
use vstd::prelude::*;

verus! {

/// One-dimensional value access: `at` answers a single `usize`
/// coordinate with the stored value or absence, pinned down by
/// [`FunVecD1::spec_at1`].
pub trait FunVecD1<T: Copy>: MapVal<T> {
    /// What this source holds at the given coordinate.
    spec fn spec_at1(&self, index: usize) -> Option<T>;

    /// Returns the value at the given coordinate, or `None` when the
    /// coordinate is not populated.
    fn at(&self, index: usize) -> (r: Option<T>)
        ensures
            r == self.spec_at1(index),
    ;

    /// Lazily yields one lookup result for each coordinate of
    /// `indices`, in order.
    fn iter_over<'a>(&'a self, indices: Vec<usize>) -> (r: MapValIter<'a, T, Self>)
        ensures
            r.spec_source() == *self,
            r.spec_indices() == indices@,
            r.spec_pos() == 0,
    ;
}

/// One-dimensional borrowed access of the keyed family, parallel to
/// [`FunVecD1`].
pub trait FunVecRefD1<T>: MapRef<T> {
    /// What this source holds at the given coordinate.
    spec fn spec_ref_at1(&self, index: usize) -> Option<T>;

    /// Returns a reference to the value at the given coordinate, or
    /// `None` when the coordinate is not populated.
    fn ref_at(&self, index: usize) -> (r: Option<&T>)
        ensures
            match r {
                Some(v) => self.spec_ref_at1(index) == Some(*v),
                None => self.spec_ref_at1(index) is None,
            },
    ;

    /// Lazily yields one borrowed lookup result for each coordinate
    /// of `indices`, in order.
    fn ref_iter_over<'a>(&'a self, indices: Vec<usize>) -> (r: MapRefIter<'a, T, Self>)
        ensures
            r.spec_source() == *self,
            r.spec_indices() == indices@,
            r.spec_pos() == 0,
    ;
}

} // verus!
