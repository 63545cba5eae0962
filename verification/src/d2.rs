//! Two-dimensional index shapes and adapters.
//!
//! A two-dimensional source is either a map keyed by the full
//! composite coordinate, or a container of one-dimensional sources:
//! the first coordinate component selects the sub-source, the rest is
//! delegated to it, and absence at the outer level short-circuits to
//! overall absence.

use crate::funvec_ref::FunVecRef;
use crate::funvec_val::FunVec;
use crate::index::{FromIndex, IntoIndex};
use std::collections::BTreeMap;
use std::collections::HashMap;
use vstd::prelude::*;

verus! {

impl IntoIndex<2> for (usize, usize) {
    open spec fn spec_into_index(self) -> Seq<usize> {
        seq![self.0, self.1]
    }

    fn into_index(self) -> (r: [usize; 2]) {
        let r: [usize; 2] = [self.0, self.1];
        proof {
            assert(r@ =~= seq![self.0, self.1]);
        }
        r
    }
}

impl FromIndex<2> for (usize, usize) {
    open spec fn spec_from_index(index: Seq<usize>) -> Self {
        (index[0], index[1])
    }

    fn from_index(index: [usize; 2]) -> (r: Self) {
        (index[0], index[1])
    }
}

impl<T: Copy, V1: FunVec<1, T>> FunVec<2, T> for Vec<V1> {
    open spec fn spec_at(&self, index: Seq<usize>) -> Option<T> {
        if index[0] < self@.len() {
            self@[index[0] as int].spec_at(seq![index[1]])
        } else {
            None
        }
    }

    fn at<Idx: IntoIndex<2>>(&self, index: Idx) -> (r: Option<T>) {
        let arr: [usize; 2] = index.into_index();
        let i: usize = arr[0];
        let rest: [usize; 1] = [arr[1]];
        proof {
            assert(rest@ =~= seq![arr[1]]);
        }
        if i < self.len() {
            self[i].at(rest)
        } else {
            None
        }
    }
}

impl<T, V1: FunVecRef<1, T>> FunVecRef<2, T> for Vec<V1> {
    open spec fn spec_ref_at(&self, index: Seq<usize>) -> Option<T> {
        if index[0] < self@.len() {
            self@[index[0] as int].spec_ref_at(seq![index[1]])
        } else {
            None
        }
    }

    fn ref_at<Idx: IntoIndex<2>>(&self, index: Idx) -> (r: Option<&T>) {
        let arr: [usize; 2] = index.into_index();
        let i: usize = arr[0];
        let rest: [usize; 1] = [arr[1]];
        proof {
            assert(rest@ =~= seq![arr[1]]);
        }
        if i < self.len() {
            self[i].ref_at(rest)
        } else {
            None
        }
    }
}

impl<const N: usize, T: Copy, V1: FunVec<1, T>> FunVec<2, T> for [V1; N] {
    open spec fn spec_at(&self, index: Seq<usize>) -> Option<T> {
        if index[0] < N {
            self@[index[0] as int].spec_at(seq![index[1]])
        } else {
            None
        }
    }

    fn at<Idx: IntoIndex<2>>(&self, index: Idx) -> (r: Option<T>) {
        let arr: [usize; 2] = index.into_index();
        let i: usize = arr[0];
        let rest: [usize; 1] = [arr[1]];
        proof {
            assert(rest@ =~= seq![arr[1]]);
        }
        if i < N {
            self[i].at(rest)
        } else {
            None
        }
    }
}

impl<const N: usize, T, V1: FunVecRef<1, T>> FunVecRef<2, T> for [V1; N] {
    open spec fn spec_ref_at(&self, index: Seq<usize>) -> Option<T> {
        if index[0] < N {
            self@[index[0] as int].spec_ref_at(seq![index[1]])
        } else {
            None
        }
    }

    fn ref_at<Idx: IntoIndex<2>>(&self, index: Idx) -> (r: Option<&T>) {
        let arr: [usize; 2] = index.into_index();
        let i: usize = arr[0];
        let rest: [usize; 1] = [arr[1]];
        proof {
            assert(rest@ =~= seq![arr[1]]);
        }
        if i < N {
            self[i].ref_at(rest)
        } else {
            None
        }
    }
}

impl<T: Copy, V1: FunVec<1, T>> FunVec<2, T> for HashMap<usize, V1> {
    open spec fn spec_at(&self, index: Seq<usize>) -> Option<T> {
        if self@.contains_key(index[0]) {
            self@[index[0]].spec_at(seq![index[1]])
        } else {
            None
        }
    }

    fn at<Idx: IntoIndex<2>>(&self, index: Idx) -> (r: Option<T>) {
        let arr: [usize; 2] = index.into_index();
        let i: usize = arr[0];
        let rest: [usize; 1] = [arr[1]];
        proof {
            assert(rest@ =~= seq![arr[1]]);
        }
        match self.get(&i) {
            Some(v) => v.at(rest),
            None => None,
        }
    }
}

impl<T, V1: FunVecRef<1, T>> FunVecRef<2, T> for HashMap<usize, V1> {
    open spec fn spec_ref_at(&self, index: Seq<usize>) -> Option<T> {
        if self@.contains_key(index[0]) {
            self@[index[0]].spec_ref_at(seq![index[1]])
        } else {
            None
        }
    }

    fn ref_at<Idx: IntoIndex<2>>(&self, index: Idx) -> (r: Option<&T>) {
        let arr: [usize; 2] = index.into_index();
        let i: usize = arr[0];
        let rest: [usize; 1] = [arr[1]];
        proof {
            assert(rest@ =~= seq![arr[1]]);
        }
        match self.get(&i) {
            Some(v) => v.ref_at(rest),
            None => None,
        }
    }
}

impl<T: Copy, V1: FunVec<1, T>> FunVec<2, T> for BTreeMap<usize, V1> {
    open spec fn spec_at(&self, index: Seq<usize>) -> Option<T> {
        if self@.contains_key(index[0]) {
            self@[index[0]].spec_at(seq![index[1]])
        } else {
            None
        }
    }

    fn at<Idx: IntoIndex<2>>(&self, index: Idx) -> (r: Option<T>) {
        let arr: [usize; 2] = index.into_index();
        let i: usize = arr[0];
        let rest: [usize; 1] = [arr[1]];
        proof {
            assert(rest@ =~= seq![arr[1]]);
        }
        match self.get(&i) {
            Some(v) => v.at(rest),
            None => None,
        }
    }
}

impl<T, V1: FunVecRef<1, T>> FunVecRef<2, T> for BTreeMap<usize, V1> {
    open spec fn spec_ref_at(&self, index: Seq<usize>) -> Option<T> {
        if self@.contains_key(index[0]) {
            self@[index[0]].spec_ref_at(seq![index[1]])
        } else {
            None
        }
    }

    fn ref_at<Idx: IntoIndex<2>>(&self, index: Idx) -> (r: Option<&T>) {
        let arr: [usize; 2] = index.into_index();
        let i: usize = arr[0];
        let rest: [usize; 1] = [arr[1]];
        proof {
            assert(rest@ =~= seq![arr[1]]);
        }
        match self.get(&i) {
            Some(v) => v.ref_at(rest),
            None => None,
        }
    }
}

impl<T: Copy> FunVec<2, T> for BTreeMap<(usize, usize), T> {
    open spec fn spec_at(&self, index: Seq<usize>) -> Option<T> {
        if self@.contains_key((index[0], index[1])) {
            Some(self@[(index[0], index[1])])
        } else {
            None
        }
    }

    fn at<Idx: IntoIndex<2>>(&self, index: Idx) -> (r: Option<T>) {
        let arr: [usize; 2] = index.into_index();
        let key: (usize, usize) = (arr[0], arr[1]);
        match self.get(&key) {
            Some(v) => Some(*v),
            None => None,
        }
    }
}

impl<T> FunVecRef<2, T> for BTreeMap<(usize, usize), T> {
    open spec fn spec_ref_at(&self, index: Seq<usize>) -> Option<T> {
        if self@.contains_key((index[0], index[1])) {
            Some(self@[(index[0], index[1])])
        } else {
            None
        }
    }

    fn ref_at<Idx: IntoIndex<2>>(&self, index: Idx) -> (r: Option<&T>) {
        let arr: [usize; 2] = index.into_index();
        let key: (usize, usize) = (arr[0], arr[1]);
        self.get(&key)
    }
}

} // verus!
