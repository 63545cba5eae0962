use orx_funvec::funvec::{FunVecD1, FunVecD1Ref};
use orx_funvec::funvec_d2::{FunVecD2, FunVecRefD2};
use orx_funvec::impl_dim1::{MapRef, MapVal};
use orx_funvec::impl_dim2::{MapRefD2, MapValD2};
use orx_funvec::scalar_asvec::Scalar;
use orx_funvec::{EmptyVec, ScalarAsVec};
use std::collections::BTreeMap;
use std::collections::HashMap;

#[test]
fn keyed_d1_val() {
    let vec = vec![1, 2, 3];
    assert_eq!(Some(2), vec.val_at(1));
    assert_eq!(None, vec.val_at(3));
    assert_eq!(Some(2), vec.get_value_at(1));
    assert_eq!(None, vec.get_value_at(5));

    let arr = [4, 5];
    assert_eq!(Some(5), arr.val_at(1));
    assert_eq!(None, arr.val_at(2));

    let map: HashMap<usize, i32> = HashMap::from_iter([(3, 30)]);
    assert_eq!(Some(30), map.val_at(3));
    assert_eq!(None, map.val_at(4));

    let map: BTreeMap<usize, i32> = BTreeMap::from_iter([(3, 30)]);
    assert_eq!(Some(30), map.val_at(3));
    assert_eq!(None, map.val_at(4));

    let scalar = ScalarAsVec(9);
    assert_eq!(Some(9), scalar.val_at(100));
    let empty: EmptyVec<i32> = EmptyVec::new();
    assert_eq!(None, empty.val_at(0));
}

#[test]
fn keyed_d1_ref() {
    let vec = vec![1, 2, 3];
    assert_eq!(Some(&2), FunVecD1Ref::ref_at(&vec, 1));
    assert_eq!(None, FunVecD1Ref::ref_at(&vec, 3));
    assert_eq!(Some(&2), vec.get_ref_at(1));
    assert_eq!(None, vec.get_ref_at(5));

    let scalar = ScalarAsVec(9);
    assert_eq!(Some(&9), scalar.get_ref_at(100));
    let empty: EmptyVec<i32> = EmptyVec::new();
    assert_eq!(None, empty.get_ref_at(0));
}

#[test]
fn keyed_d1_iter() {
    let vec = vec![10, 20, 30];

    let mut collected: Vec<Option<i32>> = Vec::new();
    let mut it = vec.val_iter_over(vec![2, 0, 5]);
    while let Some(r) = it.next() {
        collected.push(r);
    }
    assert_eq!(collected, vec![Some(30), Some(10), None]);

    let mut ref_collected: Vec<Option<&i32>> = Vec::new();
    let mut it = FunVecD1Ref::ref_iter_over(&vec, vec![2, 0, 5]);
    while let Some(r) = it.next() {
        ref_collected.push(r);
    }
    assert_eq!(ref_collected, vec![Some(&30), Some(&10), None]);
}

#[test]
fn scalar_source() {
    let some = Scalar::new(5);
    assert_eq!(Some(5), some.get_val_by_key((1, 2)));
    assert_eq!(Some(5), some.at(8, 9));

    let none: Scalar<i32> = Scalar::none();
    assert_eq!(None, none.get_val_by_key((0, 0)));

    let converted: Scalar<i32> = Scalar::from(7);
    assert_eq!(Some(7), converted.0);
}

#[test]
fn keyed_d2_val() {
    let nested: Vec<Vec<i32>> = vec![vec![1, 2], vec![3]];
    assert_eq!(Some(2), nested.get_val_by_key((0, 1)));
    assert_eq!(Some(3), nested.at(1, 0));
    assert_eq!(None, nested.at(0, 2));
    assert_eq!(None, nested.at(2, 0));

    let keyed: HashMap<usize, Vec<i32>> = HashMap::from_iter([(4, vec![7])]);
    assert_eq!(Some(7), keyed.at(4, 0));
    assert_eq!(None, keyed.at(4, 1));
    assert_eq!(None, keyed.at(5, 0));

    let composite: BTreeMap<(usize, usize), i32> = BTreeMap::from_iter([((1, 2), 9)]);
    assert_eq!(Some(9), composite.at(1, 2));
    assert_eq!(None, composite.at(2, 1));
}

#[test]
fn keyed_d2_ref() {
    let nested: Vec<Vec<i32>> = vec![vec![1, 2], vec![3]];
    assert_eq!(Some(&2), nested.get_ref_by_key((0, 1)));
    assert_eq!(Some(&3), FunVecRefD2::ref_at(&nested, 1, 0));
    assert_eq!(None, FunVecRefD2::ref_at(&nested, 2, 0));

    let scalar = ScalarAsVec(6);
    assert_eq!(Some(&6), scalar.get_ref_by_key((3, 4)));
    let empty: EmptyVec<i32> = EmptyVec::new();
    assert_eq!(None, empty.get_ref_by_key((3, 4)));
}

#[test]
fn keyed_d2_iter() {
    let nested: Vec<Vec<i32>> = vec![vec![1, 2], vec![3]];

    let mut collected: Vec<Option<i32>> = Vec::new();
    let mut it = nested.iter_over(vec![(0, 0), (1, 0), (0, 5)]);
    while let Some(r) = it.next() {
        collected.push(r);
    }
    assert_eq!(collected, vec![Some(1), Some(3), None]);

    let mut ref_collected: Vec<Option<&i32>> = Vec::new();
    let mut it = FunVecRefD2::ref_iter_over(&nested, vec![(0, 1), (9, 9)]);
    while let Some(r) = it.next() {
        ref_collected.push(r);
    }
    assert_eq!(ref_collected, vec![Some(&2), None]);
}
