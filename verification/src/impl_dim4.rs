//! Primitive four-dimensional lookup traits of the keyed
//! family, their iterators, and the adapters of the concrete
//! container types.
//!
//! A container of three-dimensional sources satisfies the
//! four-dimensional contract by looking the first coordinate
//! component up in the outer container and delegating the rest to the
//! retrieved sub-source; outer absence short-circuits to overall
//! absence.

use crate::empty_vec::EmptyVec;
use crate::funvec_d3::{FunVecD3, FunVecRefD3};
use crate::scalar_as_vec::ScalarAsVec;
use std::collections::BTreeMap;
use std::collections::HashMap;
use vstd::prelude::*;

verus! {

/// Primitive four-dimensional value lookup.
pub trait MapValD4<T: Copy>: Sized {
    /// What this source holds at the given coordinate.
    spec fn spec_value_at4(&self, index: (usize, usize, usize, usize)) -> Option<T>;

    /// Returns the value at the given coordinate, or `None` when the
    /// coordinate is not populated.
    fn get_value_at(&self, key: (usize, usize, usize, usize)) -> (r: Option<T>)
        ensures
            r == self.spec_value_at4(key),
    ;
}

/// Primitive four-dimensional borrowed lookup.
pub trait MapRefD4<T>: Sized {
    /// What this source holds at the given coordinate.
    spec fn spec_ref_value_at4(&self, index: (usize, usize, usize, usize)) -> Option<T>;

    /// Returns a reference to the value at the given coordinate, or
    /// `None` when the coordinate is not populated.
    fn get_ref_at(&self, key: (usize, usize, usize, usize)) -> (r: Option<&T>)
        ensures
            match r {
                Some(v) => self.spec_ref_value_at4(key) == Some(*v),
                None => self.spec_ref_value_at4(key) is None,
            },
    ;
}

/// Lazily yields one value lookup per stored coordinate, in order.
pub struct MapValD4Iter<'a, T, M> {
    value: &'a M,
    indices: Vec<(usize, usize, usize, usize)>,
    pos: usize,
    t: core::marker::PhantomData<T>,
}

impl<'a, T, M> MapValD4Iter<'a, T, M> {
    /// The source the iterator reads from.
    pub closed spec fn spec_source(&self) -> M {
        *self.value
    }

    /// The full coordinate sequence the iterator walks, in order.
    pub closed spec fn spec_indices(&self) -> Seq<(usize, usize, usize, usize)> {
        self.indices@
    }

    /// The position of the next coordinate to visit.
    pub closed spec fn spec_pos(&self) -> int {
        self.pos as int
    }

    /// Whether the iterator has visited every coordinate.
    pub open spec fn spec_exhausted(&self) -> bool {
        self.spec_pos() >= self.spec_indices().len()
    }

    /// Binds the iterator to a source and a coordinate sequence,
    /// starting before the first coordinate.
    pub fn new(value: &'a M, indices: Vec<(usize, usize, usize, usize)>) -> (r: Self)
        ensures
            r.spec_source() == *value,
            r.spec_indices() == indices@,
            r.spec_pos() == 0,
    {
        MapValD4Iter { value, indices, pos: 0, t: core::marker::PhantomData }
    }
}

impl<'a, T: Copy, M: MapValD4<T>> MapValD4Iter<'a, T, M> {
    /// Pulls the next result: one lookup on the next coordinate, or
    /// `None` once the coordinate sequence is exhausted.
    pub fn next(&mut self) -> (r: Option<Option<T>>)
        ensures
            final(self).spec_source() == old(self).spec_source(),
            final(self).spec_indices() == old(self).spec_indices(),
            !old(self).spec_exhausted() ==> {
                &&& r == Some(
                    old(self).spec_source().spec_value_at4(
                        old(self).spec_indices()[old(self).spec_pos()],
                    ),
                )
                &&& final(self).spec_pos() == old(self).spec_pos() + 1
            },
            old(self).spec_exhausted() ==> {
                &&& r is None
                &&& final(self).spec_pos() == old(self).spec_pos()
            },
    {
        if self.pos < self.indices.len() {
            let idx: (usize, usize, usize, usize) = self.indices[self.pos];
            self.pos = self.pos + 1;
            Some(self.value.get_value_at(idx))
        } else {
            None
        }
    }
}

/// Lazily yields one borrowed lookup per stored coordinate, in order.
pub struct MapRefD4Iter<'a, T, M> {
    value: &'a M,
    indices: Vec<(usize, usize, usize, usize)>,
    pos: usize,
    t: core::marker::PhantomData<T>,
}

impl<'a, T, M> MapRefD4Iter<'a, T, M> {
    /// The source the iterator reads from.
    pub closed spec fn spec_source(&self) -> M {
        *self.value
    }

    /// The full coordinate sequence the iterator walks, in order.
    pub closed spec fn spec_indices(&self) -> Seq<(usize, usize, usize, usize)> {
        self.indices@
    }

    /// The position of the next coordinate to visit.
    pub closed spec fn spec_pos(&self) -> int {
        self.pos as int
    }

    /// Whether the iterator has visited every coordinate.
    pub open spec fn spec_exhausted(&self) -> bool {
        self.spec_pos() >= self.spec_indices().len()
    }

    /// Binds the iterator to a source and a coordinate sequence,
    /// starting before the first coordinate.
    pub fn new(value: &'a M, indices: Vec<(usize, usize, usize, usize)>) -> (r: Self)
        ensures
            r.spec_source() == *value,
            r.spec_indices() == indices@,
            r.spec_pos() == 0,
    {
        MapRefD4Iter { value, indices, pos: 0, t: core::marker::PhantomData }
    }
}

impl<'a, T, M: MapRefD4<T>> MapRefD4Iter<'a, T, M> {
    /// Pulls the next result: one borrowed lookup on the next
    /// coordinate, or `None` once the coordinate sequence is
    /// exhausted.
    pub fn next(&mut self) -> (r: Option<Option<&'a T>>)
        ensures
            final(self).spec_source() == old(self).spec_source(),
            final(self).spec_indices() == old(self).spec_indices(),
            !old(self).spec_exhausted() ==> {
                &&& final(self).spec_pos() == old(self).spec_pos() + 1
                &&& match r {
                    Some(Some(v)) => old(self).spec_source().spec_ref_value_at4(
                        old(self).spec_indices()[old(self).spec_pos()],
                    ) == Some(*v),
                    Some(None) => old(self).spec_source().spec_ref_value_at4(
                        old(self).spec_indices()[old(self).spec_pos()],
                    ) is None,
                    None => false,
                }
            },
            old(self).spec_exhausted() ==> {
                &&& r is None
                &&& final(self).spec_pos() == old(self).spec_pos()
            },
    {
        if self.pos < self.indices.len() {
            let idx: (usize, usize, usize, usize) = self.indices[self.pos];
            self.pos = self.pos + 1;
            let source: &'a M = self.value;
            Some(source.get_ref_at(idx))
        } else {
            None
        }
    }
}

impl<T: Copy> MapValD4<T> for ScalarAsVec<T> {
    open spec fn spec_value_at4(&self, index: (usize, usize, usize, usize)) -> Option<T> {
        Some(self.0)
    }

    fn get_value_at(&self, key: (usize, usize, usize, usize)) -> (r: Option<T>) {
        Some(self.0)
    }
}

impl<T: Copy> MapValD4<T> for EmptyVec<T> {
    open spec fn spec_value_at4(&self, index: (usize, usize, usize, usize)) -> Option<T> {
        None
    }

    fn get_value_at(&self, key: (usize, usize, usize, usize)) -> (r: Option<T>) {
        None
    }
}

impl<T> MapRefD4<T> for ScalarAsVec<T> {
    open spec fn spec_ref_value_at4(&self, index: (usize, usize, usize, usize)) -> Option<T> {
        Some(self.0)
    }

    fn get_ref_at(&self, key: (usize, usize, usize, usize)) -> (r: Option<&T>) {
        Some(&self.0)
    }
}

impl<T> MapRefD4<T> for EmptyVec<T> {
    open spec fn spec_ref_value_at4(&self, index: (usize, usize, usize, usize)) -> Option<T> {
        None
    }

    fn get_ref_at(&self, key: (usize, usize, usize, usize)) -> (r: Option<&T>) {
        None
    }
}

impl<T: Copy, V3: FunVecD3<T>> MapValD4<T> for Vec<V3> {
    open spec fn spec_value_at4(&self, index: (usize, usize, usize, usize)) -> Option<T> {
        if index.0 < self@.len() {
            self@[index.0 as int].spec_at3((index.1, index.2, index.3))
        } else {
            None
        }
    }

    fn get_value_at(&self, key: (usize, usize, usize, usize)) -> (r: Option<T>) {
        if key.0 < self.len() {
            self[key.0].at(key.1, key.2, key.3)
        } else {
            None
        }
    }
}

impl<T, V3: FunVecRefD3<T>> MapRefD4<T> for Vec<V3> {
    open spec fn spec_ref_value_at4(&self, index: (usize, usize, usize, usize)) -> Option<T> {
        if index.0 < self@.len() {
            self@[index.0 as int].spec_ref_at3((index.1, index.2, index.3))
        } else {
            None
        }
    }

    fn get_ref_at(&self, key: (usize, usize, usize, usize)) -> (r: Option<&T>) {
        if key.0 < self.len() {
            self[key.0].ref_at(key.1, key.2, key.3)
        } else {
            None
        }
    }
}

impl<const N: usize, T: Copy, V3: FunVecD3<T>> MapValD4<T> for [V3; N] {
    open spec fn spec_value_at4(&self, index: (usize, usize, usize, usize)) -> Option<T> {
        if index.0 < N {
            self@[index.0 as int].spec_at3((index.1, index.2, index.3))
        } else {
            None
        }
    }

    fn get_value_at(&self, key: (usize, usize, usize, usize)) -> (r: Option<T>) {
        if key.0 < N {
            self[key.0].at(key.1, key.2, key.3)
        } else {
            None
        }
    }
}

impl<const N: usize, T, V3: FunVecRefD3<T>> MapRefD4<T> for [V3; N] {
    open spec fn spec_ref_value_at4(&self, index: (usize, usize, usize, usize)) -> Option<T> {
        if index.0 < N {
            self@[index.0 as int].spec_ref_at3((index.1, index.2, index.3))
        } else {
            None
        }
    }

    fn get_ref_at(&self, key: (usize, usize, usize, usize)) -> (r: Option<&T>) {
        if key.0 < N {
            self[key.0].ref_at(key.1, key.2, key.3)
        } else {
            None
        }
    }
}

impl<T: Copy, V3: FunVecD3<T>> MapValD4<T> for HashMap<usize, V3> {
    open spec fn spec_value_at4(&self, index: (usize, usize, usize, usize)) -> Option<T> {
        if self@.contains_key(index.0) {
            self@[index.0].spec_at3((index.1, index.2, index.3))
        } else {
            None
        }
    }

    fn get_value_at(&self, key: (usize, usize, usize, usize)) -> (r: Option<T>) {
        match self.get(&key.0) {
            Some(v) => v.at(key.1, key.2, key.3),
            None => None,
        }
    }
}

impl<T, V3: FunVecRefD3<T>> MapRefD4<T> for HashMap<usize, V3> {
    open spec fn spec_ref_value_at4(&self, index: (usize, usize, usize, usize)) -> Option<T> {
        if self@.contains_key(index.0) {
            self@[index.0].spec_ref_at3((index.1, index.2, index.3))
        } else {
            None
        }
    }

    fn get_ref_at(&self, key: (usize, usize, usize, usize)) -> (r: Option<&T>) {
        match self.get(&key.0) {
            Some(v) => v.ref_at(key.1, key.2, key.3),
            None => None,
        }
    }
}

impl<T: Copy, V3: FunVecD3<T>> MapValD4<T> for BTreeMap<usize, V3> {
    open spec fn spec_value_at4(&self, index: (usize, usize, usize, usize)) -> Option<T> {
        if self@.contains_key(index.0) {
            self@[index.0].spec_at3((index.1, index.2, index.3))
        } else {
            None
        }
    }

    fn get_value_at(&self, key: (usize, usize, usize, usize)) -> (r: Option<T>) {
        match self.get(&key.0) {
            Some(v) => v.at(key.1, key.2, key.3),
            None => None,
        }
    }
}

impl<T, V3: FunVecRefD3<T>> MapRefD4<T> for BTreeMap<usize, V3> {
    open spec fn spec_ref_value_at4(&self, index: (usize, usize, usize, usize)) -> Option<T> {
        if self@.contains_key(index.0) {
            self@[index.0].spec_ref_at3((index.1, index.2, index.3))
        } else {
            None
        }
    }

    fn get_ref_at(&self, key: (usize, usize, usize, usize)) -> (r: Option<&T>) {
        match self.get(&key.0) {
            Some(v) => v.ref_at(key.1, key.2, key.3),
            None => None,
        }
    }
}

impl<T: Copy> MapValD4<T> for BTreeMap<(usize, usize, usize, usize), T> {
    open spec fn spec_value_at4(&self, index: (usize, usize, usize, usize)) -> Option<T> {
        if self@.contains_key(index) {
            Some(self@[index])
        } else {
            None
        }
    }

    fn get_value_at(&self, key: (usize, usize, usize, usize)) -> (r: Option<T>) {
        match self.get(&key) {
            Some(v) => Some(*v),
            None => None,
        }
    }
}

impl<T> MapRefD4<T> for BTreeMap<(usize, usize, usize, usize), T> {
    open spec fn spec_ref_value_at4(&self, index: (usize, usize, usize, usize)) -> Option<T> {
        if self@.contains_key(index) {
            Some(self@[index])
        } else {
            None
        }
    }

    fn get_ref_at(&self, key: (usize, usize, usize, usize)) -> (r: Option<&T>) {
        self.get(&key)
    }
}

impl<T: Copy, V: MapValD4<T>> crate::funvec_d4::FunVecD4<T> for V {
    open spec fn spec_at4(&self, index: (usize, usize, usize, usize)) -> Option<T> {
        self.spec_value_at4(index)
    }

    fn at(&self, i: usize, j: usize, k: usize, l: usize) -> (r: Option<T>) {
        self.get_value_at((i, j, k, l))
    }

    fn iter_over<'a>(&'a self, indices: Vec<(usize, usize, usize, usize)>) -> (r: MapValD4Iter<'a, T, Self>) {
        MapValD4Iter::new(self, indices)
    }
}

impl<T, V: MapRefD4<T>> crate::funvec_d4::FunVecRefD4<T> for V {
    open spec fn spec_ref_at4(&self, index: (usize, usize, usize, usize)) -> Option<T> {
        self.spec_ref_value_at4(index)
    }

    fn ref_at(&self, i: usize, j: usize, k: usize, l: usize) -> (r: Option<&T>) {
        self.get_ref_at((i, j, k, l))
    }

    fn ref_iter_over<'a>(&'a self, indices: Vec<(usize, usize, usize, usize)>) -> (r: MapRefD4Iter<'a, T, Self>) {
        MapRefD4Iter::new(self, indices)
    }
}

} // verus!
