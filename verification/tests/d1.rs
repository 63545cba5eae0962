use orx_funvec::{EmptyVec, FunVec, FunVecRef, ScalarAsVec};
use std::collections::BTreeMap;
use std::collections::HashMap;

fn sum_val<V: FunVec<1, i32>>(vec: &V, indices: Vec<usize>) -> i32 {
    let mut it = vec.iter_over(indices);
    let mut sum = 0;
    while let Some(r) = it.next() {
        if let Some(v) = r {
            sum += v;
        }
    }
    sum
}

fn sum_ref<V: FunVecRef<1, i32>>(vec: &V, indices: Vec<usize>) -> i32 {
    let mut it = vec.ref_iter_over(indices);
    let mut sum = 0;
    while let Some(r) = it.next() {
        if let Some(v) = r {
            sum += *v;
        }
    }
    sum
}

#[test]
fn scalars_as_vec() {
    let vec = ScalarAsVec(12);

    assert_eq!(Some(12), vec.at(3));
    assert_eq!(Some(&12), vec.ref_at(8));

    assert_eq!(4 * 12, sum_val(&vec, (0..4).collect()));
    assert_eq!(4 * 12, sum_ref(&vec, (0..4).collect()));
}

#[test]
fn empty_vec() {
    let vec = EmptyVec::new();

    assert_eq!(None, vec.at(0));
    assert_eq!(None, vec.at(3));

    assert_eq!(0, sum_val(&vec, (0..4).collect()));
    assert_eq!(0, sum_ref(&vec, (0..4).collect()));
}

fn val_assert_contagious<V: FunVec<1, i32>>(vec: &V) {
    // [1, 2, 3]

    assert_eq!(Some(2), vec.at(1));
    assert_eq!(None, vec.at(3));

    assert_eq!(6, sum_val(vec, (0..3).collect()));
    assert_eq!(6, sum_val(vec, (0..10).collect()));
    assert_eq!(5, sum_val(vec, vec![1, 2]));
}

fn ref_assert_contagious<V: FunVecRef<1, i32>>(vec: &V) {
    // [1, 2, 3]

    assert_eq!(Some(&2), vec.ref_at(1));
    assert_eq!(None, vec.ref_at(3));

    assert_eq!(6, sum_ref(vec, (0..3).collect()));
    assert_eq!(6, sum_ref(vec, (0..10).collect()));
    assert_eq!(5, sum_ref(vec, vec![1, 2]));
}

#[test]
fn vec() {
    let vec = vec![1, 2, 3];
    val_assert_contagious(&vec);
    ref_assert_contagious(&vec);
}

#[test]
fn array() {
    let arr = [1, 2, 3];
    val_assert_contagious(&arr);
    ref_assert_contagious(&arr);
}

fn val_assert_maps<V: FunVec<1, i32>>(vec: &V) {
    // 1->10 ; 2->20 ; 7->70

    assert_eq!(Some(70), vec.at(7));
    assert_eq!(None, vec.at(0));

    assert_eq!(100, sum_val(vec, (0..10).collect()));
    assert_eq!(100, sum_val(vec, vec![1, 2, 7]));
    assert_eq!(80, sum_val(vec, vec![1, 7]));
}

fn ref_assert_maps<V: FunVecRef<1, i32>>(vec: &V) {
    // 1->10 ; 2->20 ; 7->70

    assert_eq!(Some(&70), vec.ref_at(7));
    assert_eq!(None, vec.ref_at(0));

    assert_eq!(100, sum_ref(vec, (0..10).collect()));
    assert_eq!(100, sum_ref(vec, vec![1, 2, 7]));
    assert_eq!(80, sum_ref(vec, vec![1, 7]));
}

#[test]
fn hashmap() {
    let map = HashMap::from_iter([(1, 10), (2, 20), (7, 70)]);
    val_assert_maps(&map);
    ref_assert_maps(&map);
}

#[test]
fn btreemap() {
    let map = BTreeMap::from_iter([(1, 10), (2, 20), (7, 70)]);
    val_assert_maps(&map);
    ref_assert_maps(&map);
}
