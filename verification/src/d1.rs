//! One-dimensional index shapes and adapters: dense sequences, fixed
//! arrays, and maps keyed by the single coordinate component.

use crate::funvec_ref::FunVecRef;
use crate::funvec_val::FunVec;
use crate::index::{FromIndex, IntoIndex};
use std::collections::BTreeMap;
use std::collections::HashMap;
use vstd::prelude::*;

verus! {

impl IntoIndex<1> for usize {
    open spec fn spec_into_index(self) -> Seq<usize> {
        seq![self]
    }

    fn into_index(self) -> (r: [usize; 1]) {
        let r: [usize; 1] = [self];
        proof {
            assert(r@ =~= seq![self]);
        }
        r
    }
}

impl FromIndex<1> for usize {
    open spec fn spec_from_index(index: Seq<usize>) -> Self {
        index[0]
    }

    fn from_index(index: [usize; 1]) -> (r: Self) {
        index[0]
    }
}

impl<T: Copy> FunVec<1, T> for Vec<T> {
    open spec fn spec_at(&self, index: Seq<usize>) -> Option<T> {
        if index[0] < self@.len() {
            Some(self@[index[0] as int])
        } else {
            None
        }
    }

    fn at<Idx: IntoIndex<1>>(&self, index: Idx) -> (r: Option<T>) {
        let i: usize = index.into_index()[0];
        if i < self.len() {
            Some(self[i])
        } else {
            None
        }
    }
}

impl<T> FunVecRef<1, T> for Vec<T> {
    open spec fn spec_ref_at(&self, index: Seq<usize>) -> Option<T> {
        if index[0] < self@.len() {
            Some(self@[index[0] as int])
        } else {
            None
        }
    }

    fn ref_at<Idx: IntoIndex<1>>(&self, index: Idx) -> (r: Option<&T>) {
        let i: usize = index.into_index()[0];
        if i < self.len() {
            Some(&self[i])
        } else {
            None
        }
    }
}

impl<const N: usize, T: Copy> FunVec<1, T> for [T; N] {
    open spec fn spec_at(&self, index: Seq<usize>) -> Option<T> {
        if index[0] < N {
            Some(self@[index[0] as int])
        } else {
            None
        }
    }

    fn at<Idx: IntoIndex<1>>(&self, index: Idx) -> (r: Option<T>) {
        let i: usize = index.into_index()[0];
        if i < N {
            Some(self[i])
        } else {
            None
        }
    }
}

impl<const N: usize, T> FunVecRef<1, T> for [T; N] {
    open spec fn spec_ref_at(&self, index: Seq<usize>) -> Option<T> {
        if index[0] < N {
            Some(self@[index[0] as int])
        } else {
            None
        }
    }

    fn ref_at<Idx: IntoIndex<1>>(&self, index: Idx) -> (r: Option<&T>) {
        let i: usize = index.into_index()[0];
        if i < N {
            Some(&self[i])
        } else {
            None
        }
    }
}

impl<T: Copy> FunVec<1, T> for HashMap<usize, T> {
    open spec fn spec_at(&self, index: Seq<usize>) -> Option<T> {
        if self@.contains_key(index[0]) {
            Some(self@[index[0]])
        } else {
            None
        }
    }

    fn at<Idx: IntoIndex<1>>(&self, index: Idx) -> (r: Option<T>) {
        let i: usize = index.into_index()[0];
        match self.get(&i) {
            Some(v) => Some(*v),
            None => None,
        }
    }
}

impl<T> FunVecRef<1, T> for HashMap<usize, T> {
    open spec fn spec_ref_at(&self, index: Seq<usize>) -> Option<T> {
        if self@.contains_key(index[0]) {
            Some(self@[index[0]])
        } else {
            None
        }
    }

    fn ref_at<Idx: IntoIndex<1>>(&self, index: Idx) -> (r: Option<&T>) {
        let i: usize = index.into_index()[0];
        self.get(&i)
    }
}

impl<T: Copy> FunVec<1, T> for BTreeMap<usize, T> {
    open spec fn spec_at(&self, index: Seq<usize>) -> Option<T> {
        if self@.contains_key(index[0]) {
            Some(self@[index[0]])
        } else {
            None
        }
    }

    fn at<Idx: IntoIndex<1>>(&self, index: Idx) -> (r: Option<T>) {
        let i: usize = index.into_index()[0];
        match self.get(&i) {
            Some(v) => Some(*v),
            None => None,
        }
    }
}

impl<T> FunVecRef<1, T> for BTreeMap<usize, T> {
    open spec fn spec_ref_at(&self, index: Seq<usize>) -> Option<T> {
        if self@.contains_key(index[0]) {
            Some(self@[index[0]])
        } else {
            None
        }
    }

    fn ref_at<Idx: IntoIndex<1>>(&self, index: Idx) -> (r: Option<&T>) {
        let i: usize = index.into_index()[0];
        self.get(&i)
    }
}

} // verus!
