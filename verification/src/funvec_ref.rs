//! The reference-access contract: borrow the value at a coordinate, or
//! report absence.

use crate::index::IntoIndex;
use crate::iter_over_ref::IterOverRefs;
use vstd::prelude::*;

verus! {

/// Abstraction over `DIM`-dimensional vectors allowing borrowed access
/// by index, for element types that are not cheaply copyable.
///
/// The contract parallels [`crate::funvec_val::FunVec`]: the
/// specification-level lookup [`FunVecRef::spec_ref_at`] decides
/// presence and the stored value, and `ref_at` is proved to agree with
/// it: a returned reference points at exactly the stored value, and
/// `None` comes back exactly on unpopulated coordinates.
pub trait FunVecRef<const DIM: usize, T>: Sized {
    /// What this source holds at the given canonical coordinate.
    spec fn spec_ref_at(&self, index: Seq<usize>) -> Option<T>;

    /// Returns a reference to the value at the given coordinate, or
    /// `None` when the coordinate is not populated.
    fn ref_at<Idx: IntoIndex<DIM>>(&self, index: Idx) -> (r: Option<&T>)
        ensures
            match r {
                Some(v) => self.spec_ref_at(index.spec_into_index()) == Some(*v),
                None => self.spec_ref_at(index.spec_into_index()) is None,
            },
    ;

    /// Lazily yields one borrowed lookup result for each coordinate of
    /// `indices`, in order.
    fn ref_iter_over<'a, Idx: IntoIndex<DIM> + Copy>(&'a self, indices: Vec<Idx>) -> (r:
        IterOverRefs<'a, DIM, T, Idx, Self>)
        ensures
            r.spec_source() == *self,
            r.spec_indices() == indices@,
            r.spec_pos() == 0,
    {
        IterOverRefs::new(self, indices)
    }
}

} // verus!
