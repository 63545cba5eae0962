//! Primitive two-dimensional lookup traits of the keyed
//! family, their iterators, and the adapters of the concrete
//! container types.
//!
//! A container of one-dimensional sources satisfies the
//! two-dimensional contract by looking the first coordinate
//! component up in the outer container and delegating the rest to the
//! retrieved sub-source; outer absence short-circuits to overall
//! absence.

use crate::empty_vec::EmptyVec;
use crate::scalar_as_vec::ScalarAsVec;
use crate::funvec::{FunVecD1, FunVecD1Ref};
use crate::scalar_asvec::Scalar;
use std::collections::BTreeMap;
use std::collections::HashMap;
use vstd::prelude::*;

verus! {

/// Primitive two-dimensional value lookup.
pub trait MapValD2<T: Copy>: Sized {
    /// What this source holds at the given coordinate.
    spec fn spec_val_by_key2(&self, index: (usize, usize)) -> Option<T>;

    /// Returns the value at the given coordinate, or `None` when the
    /// coordinate is not populated.
    fn get_val_by_key(&self, key: (usize, usize)) -> (r: Option<T>)
        ensures
            r == self.spec_val_by_key2(key),
    ;
}

/// Primitive two-dimensional borrowed lookup.
pub trait MapRefD2<T>: Sized {
    /// What this source holds at the given coordinate.
    spec fn spec_ref_by_key2(&self, index: (usize, usize)) -> Option<T>;

    /// Returns a reference to the value at the given coordinate, or
    /// `None` when the coordinate is not populated.
    fn get_ref_by_key(&self, key: (usize, usize)) -> (r: Option<&T>)
        ensures
            match r {
                Some(v) => self.spec_ref_by_key2(key) == Some(*v),
                None => self.spec_ref_by_key2(key) is None,
            },
    ;
}

/// Lazily yields one value lookup per stored coordinate, in order.
pub struct MapValD2Iter<'a, T, M> {
    value: &'a M,
    indices: Vec<(usize, usize)>,
    pos: usize,
    t: core::marker::PhantomData<T>,
}

impl<'a, T, M> MapValD2Iter<'a, T, M> {
    /// The source the iterator reads from.
    pub closed spec fn spec_source(&self) -> M {
        *self.value
    }

    /// The full coordinate sequence the iterator walks, in order.
    pub closed spec fn spec_indices(&self) -> Seq<(usize, usize)> {
        self.indices@
    }

    /// The position of the next coordinate to visit.
    pub closed spec fn spec_pos(&self) -> int {
        self.pos as int
    }

    /// Whether the iterator has visited every coordinate.
    pub open spec fn spec_exhausted(&self) -> bool {
        self.spec_pos() >= self.spec_indices().len()
    }

    /// Binds the iterator to a source and a coordinate sequence,
    /// starting before the first coordinate.
    pub fn new(value: &'a M, indices: Vec<(usize, usize)>) -> (r: Self)
        ensures
            r.spec_source() == *value,
            r.spec_indices() == indices@,
            r.spec_pos() == 0,
    {
        MapValD2Iter { value, indices, pos: 0, t: core::marker::PhantomData }
    }
}

impl<'a, T: Copy, M: MapValD2<T>> MapValD2Iter<'a, T, M> {
    /// Pulls the next result: one lookup on the next coordinate, or
    /// `None` once the coordinate sequence is exhausted.
    pub fn next(&mut self) -> (r: Option<Option<T>>)
        ensures
            final(self).spec_source() == old(self).spec_source(),
            final(self).spec_indices() == old(self).spec_indices(),
            !old(self).spec_exhausted() ==> {
                &&& r == Some(
                    old(self).spec_source().spec_val_by_key2(
                        old(self).spec_indices()[old(self).spec_pos()],
                    ),
                )
                &&& final(self).spec_pos() == old(self).spec_pos() + 1
            },
            old(self).spec_exhausted() ==> {
                &&& r is None
                &&& final(self).spec_pos() == old(self).spec_pos()
            },
    {
        if self.pos < self.indices.len() {
            let idx: (usize, usize) = self.indices[self.pos];
            self.pos = self.pos + 1;
            Some(self.value.get_val_by_key(idx))
        } else {
            None
        }
    }
}

/// Lazily yields one borrowed lookup per stored coordinate, in order.
pub struct MapRefD2Iter<'a, T, M> {
    value: &'a M,
    indices: Vec<(usize, usize)>,
    pos: usize,
    t: core::marker::PhantomData<T>,
}

impl<'a, T, M> MapRefD2Iter<'a, T, M> {
    /// The source the iterator reads from.
    pub closed spec fn spec_source(&self) -> M {
        *self.value
    }

    /// The full coordinate sequence the iterator walks, in order.
    pub closed spec fn spec_indices(&self) -> Seq<(usize, usize)> {
        self.indices@
    }

    /// The position of the next coordinate to visit.
    pub closed spec fn spec_pos(&self) -> int {
        self.pos as int
    }

    /// Whether the iterator has visited every coordinate.
    pub open spec fn spec_exhausted(&self) -> bool {
        self.spec_pos() >= self.spec_indices().len()
    }

    /// Binds the iterator to a source and a coordinate sequence,
    /// starting before the first coordinate.
    pub fn new(value: &'a M, indices: Vec<(usize, usize)>) -> (r: Self)
        ensures
            r.spec_source() == *value,
            r.spec_indices() == indices@,
            r.spec_pos() == 0,
    {
        MapRefD2Iter { value, indices, pos: 0, t: core::marker::PhantomData }
    }
}

impl<'a, T, M: MapRefD2<T>> MapRefD2Iter<'a, T, M> {
    /// Pulls the next result: one borrowed lookup on the next
    /// coordinate, or `None` once the coordinate sequence is
    /// exhausted.
    pub fn next(&mut self) -> (r: Option<Option<&'a T>>)
        ensures
            final(self).spec_source() == old(self).spec_source(),
            final(self).spec_indices() == old(self).spec_indices(),
            !old(self).spec_exhausted() ==> {
                &&& final(self).spec_pos() == old(self).spec_pos() + 1
                &&& match r {
                    Some(Some(v)) => old(self).spec_source().spec_ref_by_key2(
                        old(self).spec_indices()[old(self).spec_pos()],
                    ) == Some(*v),
                    Some(None) => old(self).spec_source().spec_ref_by_key2(
                        old(self).spec_indices()[old(self).spec_pos()],
                    ) is None,
                    None => false,
                }
            },
            old(self).spec_exhausted() ==> {
                &&& r is None
                &&& final(self).spec_pos() == old(self).spec_pos()
            },
    {
        if self.pos < self.indices.len() {
            let idx: (usize, usize) = self.indices[self.pos];
            self.pos = self.pos + 1;
            let source: &'a M = self.value;
            Some(source.get_ref_by_key(idx))
        } else {
            None
        }
    }
}

impl<T: Copy> MapValD2<T> for Scalar<T> {
    open spec fn spec_val_by_key2(&self, index: (usize, usize)) -> Option<T> {
        self.0
    }

    fn get_val_by_key(&self, key: (usize, usize)) -> (r: Option<T>) {
        self.0
    }
}

impl<T> MapRefD2<T> for ScalarAsVec<T> {
    open spec fn spec_ref_by_key2(&self, index: (usize, usize)) -> Option<T> {
        Some(self.0)
    }

    fn get_ref_by_key(&self, key: (usize, usize)) -> (r: Option<&T>) {
        Some(&self.0)
    }
}

impl<T> MapRefD2<T> for EmptyVec<T> {
    open spec fn spec_ref_by_key2(&self, index: (usize, usize)) -> Option<T> {
        None
    }

    fn get_ref_by_key(&self, key: (usize, usize)) -> (r: Option<&T>) {
        None
    }
}

impl<T: Copy, V1: FunVecD1<T>> MapValD2<T> for Vec<V1> {
    open spec fn spec_val_by_key2(&self, index: (usize, usize)) -> Option<T> {
        if index.0 < self@.len() {
            self@[index.0 as int].spec_val_at(index.1)
        } else {
            None
        }
    }

    fn get_val_by_key(&self, key: (usize, usize)) -> (r: Option<T>) {
        if key.0 < self.len() {
            self[key.0].val_at(key.1)
        } else {
            None
        }
    }
}

impl<T, V1: FunVecD1Ref<T>> MapRefD2<T> for Vec<V1> {
    open spec fn spec_ref_by_key2(&self, index: (usize, usize)) -> Option<T> {
        if index.0 < self@.len() {
            self@[index.0 as int].spec_ref_val_at(index.1)
        } else {
            None
        }
    }

    fn get_ref_by_key(&self, key: (usize, usize)) -> (r: Option<&T>) {
        if key.0 < self.len() {
            self[key.0].ref_at(key.1)
        } else {
            None
        }
    }
}

impl<const N: usize, T: Copy, V1: FunVecD1<T>> MapValD2<T> for [V1; N] {
    open spec fn spec_val_by_key2(&self, index: (usize, usize)) -> Option<T> {
        if index.0 < N {
            self@[index.0 as int].spec_val_at(index.1)
        } else {
            None
        }
    }

    fn get_val_by_key(&self, key: (usize, usize)) -> (r: Option<T>) {
        if key.0 < N {
            self[key.0].val_at(key.1)
        } else {
            None
        }
    }
}

impl<const N: usize, T, V1: FunVecD1Ref<T>> MapRefD2<T> for [V1; N] {
    open spec fn spec_ref_by_key2(&self, index: (usize, usize)) -> Option<T> {
        if index.0 < N {
            self@[index.0 as int].spec_ref_val_at(index.1)
        } else {
            None
        }
    }

    fn get_ref_by_key(&self, key: (usize, usize)) -> (r: Option<&T>) {
        if key.0 < N {
            self[key.0].ref_at(key.1)
        } else {
            None
        }
    }
}

impl<T: Copy, V1: FunVecD1<T>> MapValD2<T> for HashMap<usize, V1> {
    open spec fn spec_val_by_key2(&self, index: (usize, usize)) -> Option<T> {
        if self@.contains_key(index.0) {
            self@[index.0].spec_val_at(index.1)
        } else {
            None
        }
    }

    fn get_val_by_key(&self, key: (usize, usize)) -> (r: Option<T>) {
        match self.get(&key.0) {
            Some(v) => v.val_at(key.1),
            None => None,
        }
    }
}

impl<T, V1: FunVecD1Ref<T>> MapRefD2<T> for HashMap<usize, V1> {
    open spec fn spec_ref_by_key2(&self, index: (usize, usize)) -> Option<T> {
        if self@.contains_key(index.0) {
            self@[index.0].spec_ref_val_at(index.1)
        } else {
            None
        }
    }

    fn get_ref_by_key(&self, key: (usize, usize)) -> (r: Option<&T>) {
        match self.get(&key.0) {
            Some(v) => v.ref_at(key.1),
            None => None,
        }
    }
}

impl<T: Copy, V1: FunVecD1<T>> MapValD2<T> for BTreeMap<usize, V1> {
    open spec fn spec_val_by_key2(&self, index: (usize, usize)) -> Option<T> {
        if self@.contains_key(index.0) {
            self@[index.0].spec_val_at(index.1)
        } else {
            None
        }
    }

    fn get_val_by_key(&self, key: (usize, usize)) -> (r: Option<T>) {
        match self.get(&key.0) {
            Some(v) => v.val_at(key.1),
            None => None,
        }
    }
}

impl<T, V1: FunVecD1Ref<T>> MapRefD2<T> for BTreeMap<usize, V1> {
    open spec fn spec_ref_by_key2(&self, index: (usize, usize)) -> Option<T> {
        if self@.contains_key(index.0) {
            self@[index.0].spec_ref_val_at(index.1)
        } else {
            None
        }
    }

    fn get_ref_by_key(&self, key: (usize, usize)) -> (r: Option<&T>) {
        match self.get(&key.0) {
            Some(v) => v.ref_at(key.1),
            None => None,
        }
    }
}

impl<T: Copy> MapValD2<T> for BTreeMap<(usize, usize), T> {
    open spec fn spec_val_by_key2(&self, index: (usize, usize)) -> Option<T> {
        if self@.contains_key(index) {
            Some(self@[index])
        } else {
            None
        }
    }

    fn get_val_by_key(&self, key: (usize, usize)) -> (r: Option<T>) {
        match self.get(&key) {
            Some(v) => Some(*v),
            None => None,
        }
    }
}

impl<T> MapRefD2<T> for BTreeMap<(usize, usize), T> {
    open spec fn spec_ref_by_key2(&self, index: (usize, usize)) -> Option<T> {
        if self@.contains_key(index) {
            Some(self@[index])
        } else {
            None
        }
    }

    fn get_ref_by_key(&self, key: (usize, usize)) -> (r: Option<&T>) {
        self.get(&key)
    }
}

impl<T: Copy, V: MapValD2<T>> crate::funvec_d2::FunVecD2<T> for V {
    open spec fn spec_at2(&self, index: (usize, usize)) -> Option<T> {
        self.spec_val_by_key2(index)
    }

    fn at(&self, i: usize, j: usize) -> (r: Option<T>) {
        self.get_val_by_key((i, j))
    }

    fn iter_over<'a>(&'a self, indices: Vec<(usize, usize)>) -> (r: MapValD2Iter<'a, T, Self>) {
        MapValD2Iter::new(self, indices)
    }
}

impl<T, V: MapRefD2<T>> crate::funvec_d2::FunVecRefD2<T> for V {
    open spec fn spec_ref_at2(&self, index: (usize, usize)) -> Option<T> {
        self.spec_ref_by_key2(index)
    }

    fn ref_at(&self, i: usize, j: usize) -> (r: Option<&T>) {
        self.get_ref_by_key((i, j))
    }

    fn ref_iter_over<'a>(&'a self, indices: Vec<(usize, usize)>) -> (r: MapRefD2Iter<'a, T, Self>) {
        MapRefD2Iter::new(self, indices)
    }
}

} // verus!
