//! Four-dimensional index shapes and adapters.
//!
//! A four-dimensional source is either a map keyed by the full
//! composite coordinate, or a container of three-dimensional sources:
//! the first coordinate component selects the sub-source, the rest is
//! delegated to it, and absence at the outer level short-circuits to
//! overall absence.

use crate::funvec_ref::FunVecRef;
use crate::funvec_val::FunVec;
use crate::index::{FromIndex, IntoIndex};
use std::collections::BTreeMap;
use std::collections::HashMap;
use vstd::prelude::*;

verus! {

impl IntoIndex<4> for (usize, usize, usize, usize) {
    open spec fn spec_into_index(self) -> Seq<usize> {
        seq![self.0, self.1, self.2, self.3]
    }

    fn into_index(self) -> (r: [usize; 4]) {
        let r: [usize; 4] = [self.0, self.1, self.2, self.3];
        proof {
            assert(r@ =~= seq![self.0, self.1, self.2, self.3]);
        }
        r
    }
}

impl FromIndex<4> for (usize, usize, usize, usize) {
    open spec fn spec_from_index(index: Seq<usize>) -> Self {
        (index[0], index[1], index[2], index[3])
    }

    fn from_index(index: [usize; 4]) -> (r: Self) {
        (index[0], index[1], index[2], index[3])
    }
}

impl<T: Copy, V3: FunVec<3, T>> FunVec<4, T> for Vec<V3> {
    open spec fn spec_at(&self, index: Seq<usize>) -> Option<T> {
        if index[0] < self@.len() {
            self@[index[0] as int].spec_at(seq![index[1], index[2], index[3]])
        } else {
            None
        }
    }

    fn at<Idx: IntoIndex<4>>(&self, index: Idx) -> (r: Option<T>) {
        let arr: [usize; 4] = index.into_index();
        let i: usize = arr[0];
        let rest: [usize; 3] = [arr[1], arr[2], arr[3]];
        proof {
            assert(rest@ =~= seq![arr[1], arr[2], arr[3]]);
        }
        if i < self.len() {
            self[i].at(rest)
        } else {
            None
        }
    }
}

impl<T, V3: FunVecRef<3, T>> FunVecRef<4, T> for Vec<V3> {
    open spec fn spec_ref_at(&self, index: Seq<usize>) -> Option<T> {
        if index[0] < self@.len() {
            self@[index[0] as int].spec_ref_at(seq![index[1], index[2], index[3]])
        } else {
            None
        }
    }

    fn ref_at<Idx: IntoIndex<4>>(&self, index: Idx) -> (r: Option<&T>) {
        let arr: [usize; 4] = index.into_index();
        let i: usize = arr[0];
        let rest: [usize; 3] = [arr[1], arr[2], arr[3]];
        proof {
            assert(rest@ =~= seq![arr[1], arr[2], arr[3]]);
        }
        if i < self.len() {
            self[i].ref_at(rest)
        } else {
            None
        }
    }
}

impl<const N: usize, T: Copy, V3: FunVec<3, T>> FunVec<4, T> for [V3; N] {
    open spec fn spec_at(&self, index: Seq<usize>) -> Option<T> {
        if index[0] < N {
            self@[index[0] as int].spec_at(seq![index[1], index[2], index[3]])
        } else {
            None
        }
    }

    fn at<Idx: IntoIndex<4>>(&self, index: Idx) -> (r: Option<T>) {
        let arr: [usize; 4] = index.into_index();
        let i: usize = arr[0];
        let rest: [usize; 3] = [arr[1], arr[2], arr[3]];
        proof {
            assert(rest@ =~= seq![arr[1], arr[2], arr[3]]);
        }
        if i < N {
            self[i].at(rest)
        } else {
            None
        }
    }
}

impl<const N: usize, T, V3: FunVecRef<3, T>> FunVecRef<4, T> for [V3; N] {
    open spec fn spec_ref_at(&self, index: Seq<usize>) -> Option<T> {
        if index[0] < N {
            self@[index[0] as int].spec_ref_at(seq![index[1], index[2], index[3]])
        } else {
            None
        }
    }

    fn ref_at<Idx: IntoIndex<4>>(&self, index: Idx) -> (r: Option<&T>) {
        let arr: [usize; 4] = index.into_index();
        let i: usize = arr[0];
        let rest: [usize; 3] = [arr[1], arr[2], arr[3]];
        proof {
            assert(rest@ =~= seq![arr[1], arr[2], arr[3]]);
        }
        if i < N {
            self[i].ref_at(rest)
        } else {
            None
        }
    }
}

impl<T: Copy, V3: FunVec<3, T>> FunVec<4, T> for HashMap<usize, V3> {
    open spec fn spec_at(&self, index: Seq<usize>) -> Option<T> {
        if self@.contains_key(index[0]) {
            self@[index[0]].spec_at(seq![index[1], index[2], index[3]])
        } else {
            None
        }
    }

    fn at<Idx: IntoIndex<4>>(&self, index: Idx) -> (r: Option<T>) {
        let arr: [usize; 4] = index.into_index();
        let i: usize = arr[0];
        let rest: [usize; 3] = [arr[1], arr[2], arr[3]];
        proof {
            assert(rest@ =~= seq![arr[1], arr[2], arr[3]]);
        }
        match self.get(&i) {
            Some(v) => v.at(rest),
            None => None,
        }
    }
}

impl<T, V3: FunVecRef<3, T>> FunVecRef<4, T> for HashMap<usize, V3> {
    open spec fn spec_ref_at(&self, index: Seq<usize>) -> Option<T> {
        if self@.contains_key(index[0]) {
            self@[index[0]].spec_ref_at(seq![index[1], index[2], index[3]])
        } else {
            None
        }
    }

    fn ref_at<Idx: IntoIndex<4>>(&self, index: Idx) -> (r: Option<&T>) {
        let arr: [usize; 4] = index.into_index();
        let i: usize = arr[0];
        let rest: [usize; 3] = [arr[1], arr[2], arr[3]];
        proof {
            assert(rest@ =~= seq![arr[1], arr[2], arr[3]]);
        }
        match self.get(&i) {
            Some(v) => v.ref_at(rest),
            None => None,
        }
    }
}

impl<T: Copy, V3: FunVec<3, T>> FunVec<4, T> for BTreeMap<usize, V3> {
    open spec fn spec_at(&self, index: Seq<usize>) -> Option<T> {
        if self@.contains_key(index[0]) {
            self@[index[0]].spec_at(seq![index[1], index[2], index[3]])
        } else {
            None
        }
    }

    fn at<Idx: IntoIndex<4>>(&self, index: Idx) -> (r: Option<T>) {
        let arr: [usize; 4] = index.into_index();
        let i: usize = arr[0];
        let rest: [usize; 3] = [arr[1], arr[2], arr[3]];
        proof {
            assert(rest@ =~= seq![arr[1], arr[2], arr[3]]);
        }
        match self.get(&i) {
            Some(v) => v.at(rest),
            None => None,
        }
    }
}

impl<T, V3: FunVecRef<3, T>> FunVecRef<4, T> for BTreeMap<usize, V3> {
    open spec fn spec_ref_at(&self, index: Seq<usize>) -> Option<T> {
        if self@.contains_key(index[0]) {
            self@[index[0]].spec_ref_at(seq![index[1], index[2], index[3]])
        } else {
            None
        }
    }

    fn ref_at<Idx: IntoIndex<4>>(&self, index: Idx) -> (r: Option<&T>) {
        let arr: [usize; 4] = index.into_index();
        let i: usize = arr[0];
        let rest: [usize; 3] = [arr[1], arr[2], arr[3]];
        proof {
            assert(rest@ =~= seq![arr[1], arr[2], arr[3]]);
        }
        match self.get(&i) {
            Some(v) => v.ref_at(rest),
            None => None,
        }
    }
}

impl<T: Copy> FunVec<4, T> for BTreeMap<(usize, usize, usize, usize), T> {
    open spec fn spec_at(&self, index: Seq<usize>) -> Option<T> {
        if self@.contains_key((index[0], index[1], index[2], index[3])) {
            Some(self@[(index[0], index[1], index[2], index[3])])
        } else {
            None
        }
    }

    fn at<Idx: IntoIndex<4>>(&self, index: Idx) -> (r: Option<T>) {
        let arr: [usize; 4] = index.into_index();
        let key: (usize, usize, usize, usize) = (arr[0], arr[1], arr[2], arr[3]);
        match self.get(&key) {
            Some(v) => Some(*v),
            None => None,
        }
    }
}

impl<T> FunVecRef<4, T> for BTreeMap<(usize, usize, usize, usize), T> {
    open spec fn spec_ref_at(&self, index: Seq<usize>) -> Option<T> {
        if self@.contains_key((index[0], index[1], index[2], index[3])) {
            Some(self@[(index[0], index[1], index[2], index[3])])
        } else {
            None
        }
    }

    fn ref_at<Idx: IntoIndex<4>>(&self, index: Idx) -> (r: Option<&T>) {
        let arr: [usize; 4] = index.into_index();
        let key: (usize, usize, usize, usize) = (arr[0], arr[1], arr[2], arr[3]);
        self.get(&key)
    }
}

} // verus!
