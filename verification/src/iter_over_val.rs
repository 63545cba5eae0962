//! Lazy iteration of value lookups over a caller-supplied coordinate
//! sequence.

use crate::funvec_val::FunVec;
use crate::index::IntoIndex;
use vstd::prelude::*;

verus! {

/// Binds a borrowed source and a sequence of coordinates; each pull
/// performs exactly one `at` lookup and yields its result, in the
/// order of the coordinate sequence.  Once the sequence is exhausted
/// every further pull yields nothing.
pub struct IterOverValues<'a, const DIM: usize, T, Idx, V> {
    value: &'a V,
    indices: Vec<Idx>,
    pos: usize,
    t: core::marker::PhantomData<T>,
}

impl<'a, const DIM: usize, T, Idx, V> IterOverValues<'a, DIM, T, Idx, V> {
    /// The source the iterator reads from.
    pub closed spec fn spec_source(&self) -> V {
        *self.value
    }

    /// The full coordinate sequence the iterator walks, in order.
    pub closed spec fn spec_indices(&self) -> Seq<Idx> {
        self.indices@
    }

    /// The position of the next coordinate to visit.
    pub closed spec fn spec_pos(&self) -> int {
        self.pos as int
    }

    /// Whether the iterator has visited every coordinate.
    pub open spec fn spec_exhausted(&self) -> bool {
        self.spec_pos() >= self.spec_indices().len()
    }

    /// Binds the iterator to a source and a coordinate sequence,
    /// starting before the first coordinate.
    pub fn new(value: &'a V, indices: Vec<Idx>) -> (r: Self)
        ensures
            r.spec_source() == *value,
            r.spec_indices() == indices@,
            r.spec_pos() == 0,
    {
        IterOverValues { value, indices, pos: 0, t: core::marker::PhantomData }
    }
}

impl<'a, const DIM: usize, T: Copy, Idx: IntoIndex<DIM> + Copy, V: FunVec<DIM, T>> IterOverValues<
    'a,
    DIM,
    T,
    Idx,
    V,
> {
    /// Pulls the next result: one `at` lookup on the next coordinate,
    /// or `None` once the coordinate sequence is exhausted.  Results
    /// come in exactly the order of the coordinate sequence, one per
    /// coordinate.
    pub fn next(&mut self) -> (r: Option<Option<T>>)
        ensures
            final(self).spec_source() == old(self).spec_source(),
            final(self).spec_indices() == old(self).spec_indices(),
            !old(self).spec_exhausted() ==> {
                &&& r == Some(
                    old(self).spec_source().spec_at(
                        old(self).spec_indices()[old(self).spec_pos()].spec_into_index(),
                    ),
                )
                &&& final(self).spec_pos() == old(self).spec_pos() + 1
            },
            old(self).spec_exhausted() ==> {
                &&& r is None
                &&& final(self).spec_pos() == old(self).spec_pos()
            },
    {
        if self.pos < self.indices.len() {
            let idx: Idx = self.indices[self.pos];
            self.pos = self.pos + 1;
            Some(self.value.at(idx))
        } else {
            None
        }
    }
}

} // verus!
