//! Lazy iteration of borrowed lookups over a caller-supplied
//! coordinate sequence.

use crate::funvec_ref::FunVecRef;
use crate::index::IntoIndex;
use vstd::prelude::*;

verus! {

/// Binds a borrowed source and a sequence of coordinates; each pull
/// performs exactly one `ref_at` lookup and yields its result, in the
/// order of the coordinate sequence.  Once the sequence is exhausted
/// every further pull yields nothing.
pub struct IterOverRefs<'a, const DIM: usize, T, Idx, V> {
    value: &'a V,
    indices: Vec<Idx>,
    pos: usize,
    t: core::marker::PhantomData<T>,
}

impl<'a, const DIM: usize, T, Idx, V> IterOverRefs<'a, DIM, T, Idx, V> {
    /// The source the iterator reads from.
    pub closed spec fn spec_source(&self) -> V {
        *self.value
    }

    /// The full coordinate sequence the iterator walks, in order.
    pub closed spec fn spec_indices(&self) -> Seq<Idx> {
        self.indices@
    }

    /// The position of the next coordinate to visit.
    pub closed spec fn spec_pos(&self) -> int {
        self.pos as int
    }

    /// Whether the iterator has visited every coordinate.
    pub open spec fn spec_exhausted(&self) -> bool {
        self.spec_pos() >= self.spec_indices().len()
    }

    /// Binds the iterator to a source and a coordinate sequence,
    /// starting before the first coordinate.
    pub fn new(value: &'a V, indices: Vec<Idx>) -> (r: Self)
        ensures
            r.spec_source() == *value,
            r.spec_indices() == indices@,
            r.spec_pos() == 0,
    {
        IterOverRefs { value, indices, pos: 0, t: core::marker::PhantomData }
    }
}

impl<'a, const DIM: usize, T, Idx: IntoIndex<DIM> + Copy, V: FunVecRef<DIM, T>> IterOverRefs<
    'a,
    DIM,
    T,
    Idx,
    V,
> {
    /// Pulls the next result: one `ref_at` lookup on the next
    /// coordinate, or `None` once the coordinate sequence is
    /// exhausted.  Results come in exactly the order of the
    /// coordinate sequence, one per coordinate.
    pub fn next(&mut self) -> (r: Option<Option<&'a T>>)
        ensures
            final(self).spec_source() == old(self).spec_source(),
            final(self).spec_indices() == old(self).spec_indices(),
            !old(self).spec_exhausted() ==> {
                &&& final(self).spec_pos() == old(self).spec_pos() + 1
                &&& match r {
                    Some(Some(v)) => old(self).spec_source().spec_ref_at(
                        old(self).spec_indices()[old(self).spec_pos()].spec_into_index(),
                    ) == Some(*v),
                    Some(None) => old(self).spec_source().spec_ref_at(
                        old(self).spec_indices()[old(self).spec_pos()].spec_into_index(),
                    ) is None,
                    None => false,
                }
            },
            old(self).spec_exhausted() ==> {
                &&& r is None
                &&& final(self).spec_pos() == old(self).spec_pos()
            },
    {
        if self.pos < self.indices.len() {
            let idx: Idx = self.indices[self.pos];
            self.pos = self.pos + 1;
            let source: &'a V = self.value;
            Some(source.ref_at(idx))
        } else {
            None
        }
    }
}

} // verus!
