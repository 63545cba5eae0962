//! Conversion between caller-facing index shapes and the canonical
//! fixed-length coordinate array.
//!
//! Callers address a `DIM`-dimensional source with whatever shape is
//! natural for the dimensionality: a bare `usize` for one dimension,
//! a tuple for two to four, or the canonical `[usize; DIM]` array for
//! any dimension.  Internally every lookup operates on the canonical
//! array; at the specification level a coordinate is a `Seq<usize>`
//! of length `DIM`.

use vstd::prelude::*;

verus! {

/// A caller-facing index shape that converts into the canonical
/// `DIM`-dimensional coordinate array.  The conversion is total.
pub trait IntoIndex<const DIM: usize>: Sized {
    /// The canonical coordinate this shape stands for.
    spec fn spec_into_index(self) -> Seq<usize>;

    /// Converts this shape into the canonical coordinate array.
    fn into_index(self) -> (r: [usize; DIM])
        ensures
            r@ == self.spec_into_index(),
    ;
}

/// A caller-facing index shape that can be rebuilt from the canonical
/// `DIM`-dimensional coordinate array, inverse of [`IntoIndex`].
pub trait FromIndex<const DIM: usize>: Sized {
    /// The shape standing for the given canonical coordinate.
    spec fn spec_from_index(index: Seq<usize>) -> Self;

    /// Rebuilds the shape from the canonical coordinate array.
    fn from_index(index: [usize; DIM]) -> (r: Self)
        ensures
            r == Self::spec_from_index(index@),
    ;
}

impl<const DIM: usize> IntoIndex<DIM> for [usize; DIM] {
    open spec fn spec_into_index(self) -> Seq<usize> {
        self@
    }

    fn into_index(self) -> (r: [usize; DIM]) {
        self
    }
}

impl<const DIM: usize> FromIndex<DIM> for [usize; DIM] {
    open spec fn spec_from_index(index: Seq<usize>) -> Self {
        choose|a: [usize; DIM]| a@ == index
    }

    fn from_index(index: [usize; DIM]) -> (r: Self) {
        proof {
            let c = choose|a: [usize; DIM]| a@ == index@;
            assert(index@ == index@);
            assert(c@ == index@);
            assert(c =~= index);
        }
        index
    }
}

} // verus!
