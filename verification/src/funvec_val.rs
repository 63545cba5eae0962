//! The value-access contract: read a copied value at a coordinate, or
//! report absence.

use crate::index::IntoIndex;
use crate::iter_over_val::IterOverValues;
use vstd::prelude::*;

verus! {

/// Abstraction over `DIM`-dimensional vectors allowing access by index.
///
/// A conforming source answers every coordinate with `Some(value)` when
/// the coordinate is populated and `None` otherwise; absence is an
/// expected outcome, never an error.  What "populated" means is pinned
/// down per adapter by [`FunVec::spec_at`], and `at` is proved to agree
/// with it exactly.
pub trait FunVec<const DIM: usize, T: Copy>: Sized {
    /// What this source holds at the given canonical coordinate.
    spec fn spec_at(&self, index: Seq<usize>) -> Option<T>;

    /// Returns the value at the given coordinate, or `None` when the
    /// coordinate is not populated.
    fn at<Idx: IntoIndex<DIM>>(&self, index: Idx) -> (r: Option<T>)
        ensures
            r == self.spec_at(index.spec_into_index()),
    ;

    /// Lazily yields one lookup result for each coordinate of
    /// `indices`, in order.
    fn iter_over<'a, Idx: IntoIndex<DIM> + Copy>(&'a self, indices: Vec<Idx>) -> (r: IterOverValues<
        'a,
        DIM,
        T,
        Idx,
        Self,
    >)
        ensures
            r.spec_source() == *self,
            r.spec_indices() == indices@,
            r.spec_pos() == 0,
    {
        IterOverValues::new(self, indices)
    }
}

} // verus!
