//! Dimension-agnostic adapters: the uniform source and the empty
//! source satisfy the access contracts for every dimension.

use crate::empty_vec::EmptyVec;
use crate::funvec_ref::FunVecRef;
use crate::funvec_val::FunVec;
use crate::index::IntoIndex;
use crate::scalar_as_vec::ScalarAsVec;
use vstd::prelude::*;

verus! {

impl<const DIM: usize, T: Copy> FunVec<DIM, T> for ScalarAsVec<T> {
    open spec fn spec_at(&self, index: Seq<usize>) -> Option<T> {
        Some(self.0)
    }

    fn at<Idx: IntoIndex<DIM>>(&self, index: Idx) -> (r: Option<T>) {
        Some(self.0)
    }
}

impl<const DIM: usize, T> FunVecRef<DIM, T> for ScalarAsVec<T> {
    open spec fn spec_ref_at(&self, index: Seq<usize>) -> Option<T> {
        Some(self.0)
    }

    fn ref_at<Idx: IntoIndex<DIM>>(&self, index: Idx) -> (r: Option<&T>) {
        Some(&self.0)
    }
}

impl<const DIM: usize, T: Copy> FunVec<DIM, T> for EmptyVec<T> {
    open spec fn spec_at(&self, index: Seq<usize>) -> Option<T> {
        None
    }

    fn at<Idx: IntoIndex<DIM>>(&self, index: Idx) -> (r: Option<T>) {
        None
    }
}

impl<const DIM: usize, T> FunVecRef<DIM, T> for EmptyVec<T> {
    open spec fn spec_ref_at(&self, index: Seq<usize>) -> Option<T> {
        None
    }

    fn ref_at<Idx: IntoIndex<DIM>>(&self, index: Idx) -> (r: Option<&T>) {
        None
    }
}

} // verus!
