//! Three-dimensional access traits of the keyed family.
//!
//! These traits are satisfied through the primitive lookup traits of
//! [`crate::impl_dim3`]: any type answering `get_val_by_key` /
//! `get_ref_by_key` for the composite coordinate obtains the
//! corresponding access and iteration operations.

use crate::impl_dim3::{MapRefD3, MapRefD3Iter, MapValD3, MapValD3Iter};
use vstd::prelude::*;

verus! {

/// Three-dimensional value access: `at` answers a coordinate with the
/// stored value or absence, pinned down by [`FunVecD3::spec_at3`].
pub trait FunVecD3<T: Copy>: MapValD3<T> {
    /// What this source holds at the given coordinate.
    spec fn spec_at3(&self, index: (usize, usize, usize)) -> Option<T>;

    /// Returns the value at the given coordinate, or `None` when the
    /// coordinate is not populated.
    fn at(&self, i: usize, j: usize, k: usize) -> (r: Option<T>)
        ensures
            r == self.spec_at3((i, j, k)),
    ;

    /// Lazily yields one lookup result for each coordinate of
    /// `indices`, in order.
    fn iter_over<'a>(&'a self, indices: Vec<(usize, usize, usize)>) -> (r: MapValD3Iter<'a, T, Self>)
        ensures
            r.spec_source() == *self,
            r.spec_indices() == indices@,
            r.spec_pos() == 0,
    ;
}

/// Three-dimensional borrowed access of the keyed family, parallel to
/// [`FunVecD3`].
pub trait FunVecRefD3<T>: MapRefD3<T> {
    /// What this source holds at the given coordinate.
    spec fn spec_ref_at3(&self, index: (usize, usize, usize)) -> Option<T>;

    /// Returns a reference to the value at the given coordinate, or
    /// `None` when the coordinate is not populated.
    fn ref_at(&self, i: usize, j: usize, k: usize) -> (r: Option<&T>)
        ensures
            match r {
                Some(v) => self.spec_ref_at3((i, j, k)) == Some(*v),
                None => self.spec_ref_at3((i, j, k)) is None,
            },
    ;

    /// Lazily yields one borrowed lookup result for each coordinate
    /// of `indices`, in order.
    fn ref_iter_over<'a>(&'a self, indices: Vec<(usize, usize, usize)>) -> (r: MapRefD3Iter<'a, T, Self>)
        ensures
            r.spec_source() == *self,
            r.spec_indices() == indices@,
            r.spec_pos() == 0,
    ;
}

} // verus!
