//! Primitive one-dimensional lookup traits of the keyed family, their
//! iterators, and the adapters of the concrete container types.
//!
//! Any type answering `get_value_at` (or `get_ref_at`) obtains the
//! one-dimensional access traits of [`crate::funvec`] and
//! [`crate::funvec_d1`] through the blanket implementations at the
//! bottom of this module.

use crate::empty_vec::EmptyVec;
use crate::scalar_as_vec::ScalarAsVec;
use std::collections::BTreeMap;
use std::collections::HashMap;
use vstd::prelude::*;

verus! {

/// Primitive one-dimensional value lookup.
pub trait MapVal<T: Copy>: Sized {
    /// What this source holds at the given coordinate.
    spec fn spec_value_at(&self, index: usize) -> Option<T>;

    /// Returns the value at the given coordinate, or `None` when the
    /// coordinate is not populated.
    fn get_value_at(&self, index: usize) -> (r: Option<T>)
        ensures
            r == self.spec_value_at(index),
    ;
}

/// Primitive one-dimensional borrowed lookup.
pub trait MapRef<T>: Sized {
    /// What this source holds at the given coordinate.
    spec fn spec_ref_value_at(&self, index: usize) -> Option<T>;

    /// Returns a reference to the value at the given coordinate, or
    /// `None` when the coordinate is not populated.
    fn get_ref_at(&self, index: usize) -> (r: Option<&T>)
        ensures
            match r {
                Some(v) => self.spec_ref_value_at(index) == Some(*v),
                None => self.spec_ref_value_at(index) is None,
            },
    ;
}

/// Lazily yields one value lookup per stored coordinate, in order.
pub struct MapValIter<'a, T, M> {
    value: &'a M,
    indices: Vec<usize>,
    pos: usize,
    t: core::marker::PhantomData<T>,
}

impl<'a, T, M> MapValIter<'a, T, M> {
    /// The source the iterator reads from.
    pub closed spec fn spec_source(&self) -> M {
        *self.value
    }

    /// The full coordinate sequence the iterator walks, in order.
    pub closed spec fn spec_indices(&self) -> Seq<usize> {
        self.indices@
    }

    /// The position of the next coordinate to visit.
    pub closed spec fn spec_pos(&self) -> int {
        self.pos as int
    }

    /// Whether the iterator has visited every coordinate.
    pub open spec fn spec_exhausted(&self) -> bool {
        self.spec_pos() >= self.spec_indices().len()
    }

    /// Binds the iterator to a source and a coordinate sequence,
    /// starting before the first coordinate.
    pub fn new(value: &'a M, indices: Vec<usize>) -> (r: Self)
        ensures
            r.spec_source() == *value,
            r.spec_indices() == indices@,
            r.spec_pos() == 0,
    {
        MapValIter { value, indices, pos: 0, t: core::marker::PhantomData }
    }
}

impl<'a, T: Copy, M: MapVal<T>> MapValIter<'a, T, M> {
    /// Pulls the next result: one lookup on the next coordinate, or
    /// `None` once the coordinate sequence is exhausted.
    pub fn next(&mut self) -> (r: Option<Option<T>>)
        ensures
            final(self).spec_source() == old(self).spec_source(),
            final(self).spec_indices() == old(self).spec_indices(),
            !old(self).spec_exhausted() ==> {
                &&& r == Some(
                    old(self).spec_source().spec_value_at(
                        old(self).spec_indices()[old(self).spec_pos()],
                    ),
                )
                &&& final(self).spec_pos() == old(self).spec_pos() + 1
            },
            old(self).spec_exhausted() ==> {
                &&& r is None
                &&& final(self).spec_pos() == old(self).spec_pos()
            },
    {
        if self.pos < self.indices.len() {
            let idx: usize = self.indices[self.pos];
            self.pos = self.pos + 1;
            Some(self.value.get_value_at(idx))
        } else {
            None
        }
    }
}

/// Lazily yields one borrowed lookup per stored coordinate, in order.
pub struct MapRefIter<'a, T, M> {
    value: &'a M,
    indices: Vec<usize>,
    pos: usize,
    t: core::marker::PhantomData<T>,
}

impl<'a, T, M> MapRefIter<'a, T, M> {
    /// The source the iterator reads from.
    pub closed spec fn spec_source(&self) -> M {
        *self.value
    }

    /// The full coordinate sequence the iterator walks, in order.
    pub closed spec fn spec_indices(&self) -> Seq<usize> {
        self.indices@
    }

    /// The position of the next coordinate to visit.
    pub closed spec fn spec_pos(&self) -> int {
        self.pos as int
    }

    /// Whether the iterator has visited every coordinate.
    pub open spec fn spec_exhausted(&self) -> bool {
        self.spec_pos() >= self.spec_indices().len()
    }

    /// Binds the iterator to a source and a coordinate sequence,
    /// starting before the first coordinate.
    pub fn new(value: &'a M, indices: Vec<usize>) -> (r: Self)
        ensures
            r.spec_source() == *value,
            r.spec_indices() == indices@,
            r.spec_pos() == 0,
    {
        MapRefIter { value, indices, pos: 0, t: core::marker::PhantomData }
    }
}

impl<'a, T, M: MapRef<T>> MapRefIter<'a, T, M> {
    /// Pulls the next result: one borrowed lookup on the next
    /// coordinate, or `None` once the coordinate sequence is
    /// exhausted.
    pub fn next(&mut self) -> (r: Option<Option<&'a T>>)
        ensures
            final(self).spec_source() == old(self).spec_source(),
            final(self).spec_indices() == old(self).spec_indices(),
            !old(self).spec_exhausted() ==> {
                &&& final(self).spec_pos() == old(self).spec_pos() + 1
                &&& match r {
                    Some(Some(v)) => old(self).spec_source().spec_ref_value_at(
                        old(self).spec_indices()[old(self).spec_pos()],
                    ) == Some(*v),
                    Some(None) => old(self).spec_source().spec_ref_value_at(
                        old(self).spec_indices()[old(self).spec_pos()],
                    ) is None,
                    None => false,
                }
            },
            old(self).spec_exhausted() ==> {
                &&& r is None
                &&& final(self).spec_pos() == old(self).spec_pos()
            },
    {
        if self.pos < self.indices.len() {
            let idx: usize = self.indices[self.pos];
            self.pos = self.pos + 1;
            let source: &'a M = self.value;
            Some(source.get_ref_at(idx))
        } else {
            None
        }
    }
}

impl<T: Copy> MapVal<T> for ScalarAsVec<T> {
    open spec fn spec_value_at(&self, index: usize) -> Option<T> {
        Some(self.0)
    }

    fn get_value_at(&self, index: usize) -> (r: Option<T>) {
        Some(self.0)
    }
}

impl<T: Copy> MapVal<T> for EmptyVec<T> {
    open spec fn spec_value_at(&self, index: usize) -> Option<T> {
        None
    }

    fn get_value_at(&self, index: usize) -> (r: Option<T>) {
        None
    }
}

impl<T: Copy> MapVal<T> for Vec<T> {
    open spec fn spec_value_at(&self, index: usize) -> Option<T> {
        if index < self@.len() {
            Some(self@[index as int])
        } else {
            None
        }
    }

    fn get_value_at(&self, index: usize) -> (r: Option<T>) {
        if index < self.len() {
            Some(self[index])
        } else {
            None
        }
    }
}

impl<const N: usize, T: Copy> MapVal<T> for [T; N] {
    open spec fn spec_value_at(&self, index: usize) -> Option<T> {
        if index < N {
            Some(self@[index as int])
        } else {
            None
        }
    }

    fn get_value_at(&self, index: usize) -> (r: Option<T>) {
        if index < N {
            Some(self[index])
        } else {
            None
        }
    }
}

impl<T: Copy> MapVal<T> for HashMap<usize, T> {
    open spec fn spec_value_at(&self, index: usize) -> Option<T> {
        if self@.contains_key(index) {
            Some(self@[index])
        } else {
            None
        }
    }

    fn get_value_at(&self, index: usize) -> (r: Option<T>) {
        match self.get(&index) {
            Some(v) => Some(*v),
            None => None,
        }
    }
}

impl<T: Copy> MapVal<T> for BTreeMap<usize, T> {
    open spec fn spec_value_at(&self, index: usize) -> Option<T> {
        if self@.contains_key(index) {
            Some(self@[index])
        } else {
            None
        }
    }

    fn get_value_at(&self, index: usize) -> (r: Option<T>) {
        match self.get(&index) {
            Some(v) => Some(*v),
            None => None,
        }
    }
}

impl<T> MapRef<T> for ScalarAsVec<T> {
    open spec fn spec_ref_value_at(&self, index: usize) -> Option<T> {
        Some(self.0)
    }

    fn get_ref_at(&self, index: usize) -> (r: Option<&T>) {
        Some(&self.0)
    }
}

impl<T> MapRef<T> for EmptyVec<T> {
    open spec fn spec_ref_value_at(&self, index: usize) -> Option<T> {
        None
    }

    fn get_ref_at(&self, index: usize) -> (r: Option<&T>) {
        None
    }
}

impl<T> MapRef<T> for Vec<T> {
    open spec fn spec_ref_value_at(&self, index: usize) -> Option<T> {
        if index < self@.len() {
            Some(self@[index as int])
        } else {
            None
        }
    }

    fn get_ref_at(&self, index: usize) -> (r: Option<&T>) {
        if index < self.len() {
            Some(&self[index])
        } else {
            None
        }
    }
}

impl<const N: usize, T> MapRef<T> for [T; N] {
    open spec fn spec_ref_value_at(&self, index: usize) -> Option<T> {
        if index < N {
            Some(self@[index as int])
        } else {
            None
        }
    }

    fn get_ref_at(&self, index: usize) -> (r: Option<&T>) {
        if index < N {
            Some(&self[index])
        } else {
            None
        }
    }
}

impl<T> MapRef<T> for HashMap<usize, T> {
    open spec fn spec_ref_value_at(&self, index: usize) -> Option<T> {
        if self@.contains_key(index) {
            Some(self@[index])
        } else {
            None
        }
    }

    fn get_ref_at(&self, index: usize) -> (r: Option<&T>) {
        self.get(&index)
    }
}

impl<T> MapRef<T> for BTreeMap<usize, T> {
    open spec fn spec_ref_value_at(&self, index: usize) -> Option<T> {
        if self@.contains_key(index) {
            Some(self@[index])
        } else {
            None
        }
    }

    fn get_ref_at(&self, index: usize) -> (r: Option<&T>) {
        self.get(&index)
    }
}

impl<T: Copy, V: MapVal<T>> crate::funvec::FunVecD1<T> for V {
    open spec fn spec_val_at(&self, index: usize) -> Option<T> {
        self.spec_value_at(index)
    }

    fn val_at(&self, index: usize) -> (r: Option<T>) {
        self.get_value_at(index)
    }

    fn val_iter_over<'a>(&'a self, indices: Vec<usize>) -> (r: MapValIter<'a, T, Self>) {
        MapValIter::new(self, indices)
    }
}

impl<T: Copy, V: MapVal<T>> crate::funvec_d1::FunVecD1<T> for V {
    open spec fn spec_at1(&self, index: usize) -> Option<T> {
        self.spec_value_at(index)
    }

    fn at(&self, index: usize) -> (r: Option<T>) {
        self.get_value_at(index)
    }

    fn iter_over<'a>(&'a self, indices: Vec<usize>) -> (r: MapValIter<'a, T, Self>) {
        MapValIter::new(self, indices)
    }
}

impl<T, V: MapRef<T>> crate::funvec::FunVecD1Ref<T> for V {
    open spec fn spec_ref_val_at(&self, index: usize) -> Option<T> {
        self.spec_ref_value_at(index)
    }

    fn ref_at(&self, index: usize) -> (r: Option<&T>) {
        self.get_ref_at(index)
    }

    fn ref_iter_over<'a>(&'a self, indices: Vec<usize>) -> (r: MapRefIter<'a, T, Self>) {
        MapRefIter::new(self, indices)
    }
}

impl<T, V: MapRef<T>> crate::funvec_d1::FunVecRefD1<T> for V {
    open spec fn spec_ref_at1(&self, index: usize) -> Option<T> {
        self.spec_ref_value_at(index)
    }

    fn ref_at(&self, index: usize) -> (r: Option<&T>) {
        self.get_ref_at(index)
    }

    fn ref_iter_over<'a>(&'a self, indices: Vec<usize>) -> (r: MapRefIter<'a, T, Self>) {
        MapRefIter::new(self, indices)
    }
}

} // verus!
