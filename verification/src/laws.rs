//! The laws of the access contracts, stated once and proved from the
//! adapters' specification lookups.
//!
//! Iteration-order preservation is stated directly on the iterators:
//! the contract of each `next` pins the result of every pull to the
//! lookup at the current coordinate, in sequence order, one pull per
//! coordinate.

use crate::empty_vec::EmptyVec;
use crate::funvec::FunVecD1;
use crate::funvec_ref::FunVecRef;
use crate::funvec_val::FunVec;
use crate::impl_dim1::{MapRef, MapVal};
use crate::impl_dim2::MapValD2;
use crate::scalar_as_vec::ScalarAsVec;
use crate::scalar_asvec::Scalar;
use std::collections::BTreeMap;
use std::collections::HashMap;
use vstd::prelude::*;

verus! {

/// A uniform source is total: in every dimension, every coordinate —
/// however large — is populated with the wrapped value, through the
/// value contract and the reference contract alike.
pub proof fn lemma_constant_source_total<const DIM: usize, T: Copy>(
    source: ScalarAsVec<T>,
    index: Seq<usize>,
)
    ensures
        <ScalarAsVec<T> as FunVec<DIM, T>>::spec_at(&source, index) == Some(source.0),
        <ScalarAsVec<T> as FunVecRef<DIM, T>>::spec_ref_at(&source, index) == Some(source.0),
{
}

/// An empty source is total in its absence: in every dimension, no
/// coordinate is populated, through the value contract and the
/// reference contract alike.
pub proof fn lemma_empty_source_total<const DIM: usize, T: Copy>(
    source: EmptyVec<T>,
    index: Seq<usize>,
)
    ensures
        <EmptyVec<T> as FunVec<DIM, T>>::spec_at(&source, index) is None,
        <EmptyVec<T> as FunVecRef<DIM, T>>::spec_ref_at(&source, index) is None,
{
}

/// A dense sequence is populated exactly below its length, with the
/// stored element, and absent at every other coordinate; value and
/// reference access agree.
pub proof fn lemma_dense_vec_at<T: Copy>(source: Vec<T>, index: Seq<usize>)
    ensures
        index[0] < source@.len() ==> <Vec<T> as FunVec<1, T>>::spec_at(&source, index) == Some(
            source@[index[0] as int],
        ),
        index[0] >= source@.len() ==> <Vec<T> as FunVec<1, T>>::spec_at(&source, index) is None,
        <Vec<T> as FunVec<1, T>>::spec_at(&source, index) == <Vec<T> as FunVecRef<1,
            T,
        >>::spec_ref_at(&source, index),
{
}

/// A fixed-size array is populated exactly below its length, with the
/// stored element, and absent at every other coordinate; value and
/// reference access agree.
pub proof fn lemma_dense_array_at<const N: usize, T: Copy>(source: [T; N], index: Seq<usize>)
    ensures
        index[0] < N ==> <[T; N] as FunVec<1, T>>::spec_at(&source, index) == Some(
            source@[index[0] as int],
        ),
        index[0] >= N ==> <[T; N] as FunVec<1, T>>::spec_at(&source, index) is None,
        <[T; N] as FunVec<1, T>>::spec_at(&source, index) == <[T; N] as FunVecRef<1,
            T,
        >>::spec_ref_at(&source, index),
{
}

/// A hash-keyed map is populated exactly at its keys, with the stored
/// value, and absent at every other coordinate; value and reference
/// access agree.
pub proof fn lemma_keyed_hashmap_at<T: Copy>(source: HashMap<usize, T>, index: Seq<usize>)
    ensures
        source@.contains_key(index[0]) ==> <HashMap<usize, T> as FunVec<1, T>>::spec_at(
            &source,
            index,
        ) == Some(source@[index[0]]),
        !source@.contains_key(index[0]) ==> <HashMap<usize, T> as FunVec<1, T>>::spec_at(
            &source,
            index,
        ) is None,
        <HashMap<usize, T> as FunVec<1, T>>::spec_at(&source, index) == <HashMap<usize,
            T,
        > as FunVecRef<1, T>>::spec_ref_at(&source, index),
{
}

/// An ordered-keyed map is populated exactly at its keys, with the
/// stored value, and absent at every other coordinate; value and
/// reference access agree.
pub proof fn lemma_keyed_btreemap_at<T: Copy>(source: BTreeMap<usize, T>, index: Seq<usize>)
    ensures
        source@.contains_key(index[0]) ==> <BTreeMap<usize, T> as FunVec<1, T>>::spec_at(
            &source,
            index,
        ) == Some(source@[index[0]]),
        !source@.contains_key(index[0]) ==> <BTreeMap<usize, T> as FunVec<1, T>>::spec_at(
            &source,
            index,
        ) is None,
        <BTreeMap<usize, T> as FunVec<1, T>>::spec_at(&source, index) == <BTreeMap<usize,
            T,
        > as FunVecRef<1, T>>::spec_ref_at(&source, index),
{
}

/// A map keyed by the full composite coordinate is populated exactly
/// at its keys, with the stored value, and absent elsewhere.
pub proof fn lemma_composite_btreemap_at<T: Copy>(
    source: BTreeMap<(usize, usize), T>,
    i: usize,
    j: usize,
)
    ensures
        source@.contains_key((i, j)) ==> <BTreeMap<(usize, usize), T> as FunVec<2, T>>::spec_at(
            &source,
            seq![i, j],
        ) == Some(source@[(i, j)]),
        !source@.contains_key((i, j)) ==> <BTreeMap<(usize, usize), T> as FunVec<2, T>>::spec_at(
            &source,
            seq![i, j],
        ) is None,
{
}

/// Recursive composition over a dense outer sequence: looking up
/// `(i, j)` looks `i` up in the outer container and, when present,
/// delegates `j` to the retrieved one-dimensional sub-source; outer
/// absence short-circuits to overall absence.
pub proof fn lemma_vec_composition<T: Copy, V1: FunVec<1, T>>(outer: Vec<V1>, i: usize, j: usize)
    ensures
        i < outer@.len() ==> <Vec<V1> as FunVec<2, T>>::spec_at(&outer, seq![i, j]) == outer@[
            i as int
        ].spec_at(seq![j]),
        i >= outer@.len() ==> <Vec<V1> as FunVec<2, T>>::spec_at(&outer, seq![i, j]) is None,
{
}

/// Recursive composition over a hash-keyed outer map: looking up
/// `(i, j)` looks `i` up among the keys and, when present, delegates
/// `j` to the retrieved one-dimensional sub-source; outer absence
/// short-circuits to overall absence.
pub proof fn lemma_hashmap_composition<T: Copy, V1: FunVec<1, T>>(
    outer: HashMap<usize, V1>,
    i: usize,
    j: usize,
)
    ensures
        outer@.contains_key(i) ==> <HashMap<usize, V1> as FunVec<2, T>>::spec_at(
            &outer,
            seq![i, j],
        ) == outer@[i].spec_at(seq![j]),
        !outer@.contains_key(i) ==> <HashMap<usize, V1> as FunVec<2, T>>::spec_at(
            &outer,
            seq![i, j],
        ) is None,
{
}

/// Recursive composition over an ordered-keyed outer map, as
/// [`lemma_hashmap_composition`].
pub proof fn lemma_btreemap_composition<T: Copy, V1: FunVec<1, T>>(
    outer: BTreeMap<usize, V1>,
    i: usize,
    j: usize,
)
    ensures
        outer@.contains_key(i) ==> <BTreeMap<usize, V1> as FunVec<2, T>>::spec_at(
            &outer,
            seq![i, j],
        ) == outer@[i].spec_at(seq![j]),
        !outer@.contains_key(i) ==> <BTreeMap<usize, V1> as FunVec<2, T>>::spec_at(
            &outer,
            seq![i, j],
        ) is None,
{
}

/// Recursive composition one dimension up: a dense sequence of
/// two-dimensional sources answers `(i, j, k)` by delegating `(j, k)`
/// to the sub-source at `i`, with outer absence short-circuiting.
pub proof fn lemma_vec_composition_d3<T: Copy, V2: FunVec<2, T>>(
    outer: Vec<V2>,
    i: usize,
    j: usize,
    k: usize,
)
    ensures
        i < outer@.len() ==> <Vec<V2> as FunVec<3, T>>::spec_at(&outer, seq![i, j, k]) == outer@[
            i as int
        ].spec_at(seq![j, k]),
        i >= outer@.len() ==> <Vec<V2> as FunVec<3, T>>::spec_at(&outer, seq![i, j, k]) is None,
{
}

/// Recursive composition at the top dimension: a dense sequence of
/// three-dimensional sources answers `(i, j, k, l)` by delegating
/// `(j, k, l)` to the sub-source at `i`, with outer absence
/// short-circuiting.
pub proof fn lemma_vec_composition_d4<T: Copy, V3: FunVec<3, T>>(
    outer: Vec<V3>,
    i: usize,
    j: usize,
    k: usize,
    l: usize,
)
    ensures
        i < outer@.len() ==> <Vec<V3> as FunVec<4, T>>::spec_at(&outer, seq![i, j, k, l]) == outer@[
            i as int
        ].spec_at(seq![j, k, l]),
        i >= outer@.len() ==> <Vec<V3> as FunVec<4, T>>::spec_at(&outer, seq![i, j, k, l]) is None,
{
}

/// The uniform and empty sources are total through the keyed family
/// as well: under the primitive one-dimensional lookups, every
/// coordinate of the uniform source is populated with its value and
/// no coordinate of the empty source is populated.
pub proof fn lemma_keyed_scalar_empty_total<T: Copy>(
    constant: ScalarAsVec<T>,
    empty: EmptyVec<T>,
    index: usize,
)
    ensures
        <ScalarAsVec<T> as MapVal<T>>::spec_value_at(&constant, index) == Some(constant.0),
        <ScalarAsVec<T> as MapRef<T>>::spec_ref_value_at(&constant, index) == Some(constant.0),
        <EmptyVec<T> as MapVal<T>>::spec_value_at(&empty, index) is None,
        <EmptyVec<T> as MapRef<T>>::spec_ref_value_at(&empty, index) is None,
{
}

/// A scalar of the keyed family answers every two-dimensional
/// coordinate with exactly the option it holds.
pub proof fn lemma_keyed_scalar_uniform<T: Copy>(source: Scalar<T>, i: usize, j: usize)
    ensures
        <Scalar<T> as MapValD2<T>>::spec_val_by_key2(&source, (i, j)) == source.0,
{
}

/// Recursive composition in the keyed family: a dense sequence of
/// one-dimensional sources answers `(i, j)` by delegating `j` to the
/// sub-source at `i`, with outer absence short-circuiting.
pub proof fn lemma_keyed_vec_composition<T: Copy, V1: FunVecD1<T>>(
    outer: Vec<V1>,
    i: usize,
    j: usize,
)
    ensures
        i < outer@.len() ==> <Vec<V1> as MapValD2<T>>::spec_val_by_key2(&outer, (i, j)) == outer@[
            i as int
        ].spec_val_at(j),
        i >= outer@.len() ==> <Vec<V1> as MapValD2<T>>::spec_val_by_key2(&outer, (i, j)) is None,
{
}

} // verus!
