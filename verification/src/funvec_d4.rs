//! Four-dimensional access traits of the keyed family.
//!
//! These traits are satisfied through the primitive lookup traits of
//! [`crate::impl_dim4`]: any type answering `get_value_at` /
//! `get_ref_at` for the composite coordinate obtains the
//! corresponding access and iteration operations.

use crate::impl_dim4::{MapRefD4, MapRefD4Iter, MapValD4, MapValD4Iter};
use vstd::prelude::*;

verus! {

/// Four-dimensional value access: `at` answers a coordinate with the
/// stored value or absence, pinned down by [`FunVecD4::spec_at4`].
pub trait FunVecD4<T: Copy>: MapValD4<T> {
    /// What this source holds at the given coordinate.
    spec fn spec_at4(&self, index: (usize, usize, usize, usize)) -> Option<T>;

    /// Returns the value at the given coordinate, or `None` when the
    /// coordinate is not populated.
    fn at(&self, i: usize, j: usize, k: usize, l: usize) -> (r: Option<T>)
        ensures
            r == self.spec_at4((i, j, k, l)),
    ;

    /// Lazily yields one lookup result for each coordinate of
    /// `indices`, in order.
    fn iter_over<'a>(&'a self, indices: Vec<(usize, usize, usize, usize)>) -> (r: MapValD4Iter<'a, T, Self>)
        ensures
            r.spec_source() == *self,
            r.spec_indices() == indices@,
            r.spec_pos() == 0,
    ;
}

/// Four-dimensional borrowed access of the keyed family, parallel to
/// [`FunVecD4`].
pub trait FunVecRefD4<T>: MapRefD4<T> {
    /// What this source holds at the given coordinate.
    spec fn spec_ref_at4(&self, index: (usize, usize, usize, usize)) -> Option<T>;

    /// Returns a reference to the value at the given coordinate, or
    /// `None` when the coordinate is not populated.
    fn ref_at(&self, i: usize, j: usize, k: usize, l: usize) -> (r: Option<&T>)
        ensures
            match r {
                Some(v) => self.spec_ref_at4((i, j, k, l)) == Some(*v),
                None => self.spec_ref_at4((i, j, k, l)) is None,
            },
    ;

    /// Lazily yields one borrowed lookup result for each coordinate
    /// of `indices`, in order.
    fn ref_iter_over<'a>(&'a self, indices: Vec<(usize, usize, usize, usize)>) -> (r: MapRefD4Iter<'a, T, Self>)
        ensures
            r.spec_source() == *self,
            r.spec_indices() == indices@,
            r.spec_pos() == 0,
    ;
}

} // verus!
