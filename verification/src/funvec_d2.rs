//! Two-dimensional access traits of the keyed family.
//!
//! These traits are satisfied through the primitive lookup traits of
//! [`crate::impl_dim2`]: any type answering `get_val_by_key` /
//! `get_ref_by_key` for the composite coordinate obtains the
//! corresponding access and iteration operations.

use crate::impl_dim2::{MapRefD2, MapRefD2Iter, MapValD2, MapValD2Iter};
use vstd::prelude::*;

verus! {

/// Two-dimensional value access: `at` answers a coordinate with the
/// stored value or absence, pinned down by [`FunVecD2::spec_at2`].
pub trait FunVecD2<T: Copy>: MapValD2<T> {
    /// What this source holds at the given coordinate.
    spec fn spec_at2(&self, index: (usize, usize)) -> Option<T>;

    /// Returns the value at the given coordinate, or `None` when the
    /// coordinate is not populated.
    fn at(&self, i: usize, j: usize) -> (r: Option<T>)
        ensures
            r == self.spec_at2((i, j)),
    ;

    /// Lazily yields one lookup result for each coordinate of
    /// `indices`, in order.
    fn iter_over<'a>(&'a self, indices: Vec<(usize, usize)>) -> (r: MapValD2Iter<'a, T, Self>)
        ensures
            r.spec_source() == *self,
            r.spec_indices() == indices@,
            r.spec_pos() == 0,
    ;
}

/// Two-dimensional borrowed access of the keyed family, parallel to
/// [`FunVecD2`].
pub trait FunVecRefD2<T>: MapRefD2<T> {
    /// What this source holds at the given coordinate.
    spec fn spec_ref_at2(&self, index: (usize, usize)) -> Option<T>;

    /// Returns a reference to the value at the given coordinate, or
    /// `None` when the coordinate is not populated.
    fn ref_at(&self, i: usize, j: usize) -> (r: Option<&T>)
        ensures
            match r {
                Some(v) => self.spec_ref_at2((i, j)) == Some(*v),
                None => self.spec_ref_at2((i, j)) is None,
            },
    ;

    /// Lazily yields one borrowed lookup result for each coordinate
    /// of `indices`, in order.
    fn ref_iter_over<'a>(&'a self, indices: Vec<(usize, usize)>) -> (r: MapRefD2Iter<'a, T, Self>)
        ensures
            r.spec_source() == *self,
            r.spec_indices() == indices@,
            r.spec_pos() == 0,
    ;
}

} // verus!
