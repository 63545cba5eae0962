//! A uniform indexed-access abstraction over vector-like data sources.
//!
//! A *source* answers, for a `DIM`-dimensional coordinate, whether a value
//! is present there and, if so, what it is.  Dense vectors, fixed arrays,
//! keyed maps, a uniform source and an empty source all satisfy the same
//! contract, so generic algorithms can be written once against `at` /
//! `ref_at` and instantiated over any concrete backing representation.
//!
//! Every access contract is stated against a specification-level lookup
//! function, so presence and absence are pinned down exactly for each
//! adapter.

pub mod d1;
pub mod d2;
pub mod d3;
pub mod d4;
pub mod d_any;
pub mod empty_vec;
pub mod funvec;
pub mod funvec_d1;
pub mod funvec_d2;
pub mod funvec_d3;
pub mod funvec_d4;
pub mod funvec_ref;
pub mod funvec_val;
pub mod impl_dim1;
pub mod impl_dim2;
pub mod impl_dim3;
pub mod impl_dim4;
pub mod index;
pub mod iter_over_ref;
pub mod iter_over_val;
pub mod laws;
pub mod scalar_as_vec;
pub mod scalar_asvec;

pub use empty_vec::EmptyVec;
pub use funvec_ref::FunVecRef;
pub use funvec_val::FunVec;
pub use index::{FromIndex, IntoIndex};
pub use iter_over_ref::IterOverRefs;
pub use iter_over_val::IterOverValues;
pub use scalar_as_vec::ScalarAsVec;
