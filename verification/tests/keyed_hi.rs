use orx_funvec::funvec_d3::{FunVecD3, FunVecRefD3};
use orx_funvec::funvec_d4::{FunVecD4, FunVecRefD4};
use orx_funvec::impl_dim3::{MapRefD3, MapValD3};
use orx_funvec::impl_dim4::{MapRefD4, MapValD4};
use orx_funvec::scalar_asvec::Scalar;
use orx_funvec::{EmptyVec, ScalarAsVec};
use std::collections::BTreeMap;
use std::collections::HashMap;

#[test]
fn keyed_d3_val() {
    let nested: Vec<Vec<Vec<i32>>> = vec![vec![vec![1, 2], vec![3]], vec![vec![4]]];
    assert_eq!(Some(2), nested.get_val_by_key((0, 0, 1)));
    assert_eq!(Some(4), nested.at(1, 0, 0));
    assert_eq!(None, nested.at(0, 1, 1));
    assert_eq!(None, nested.at(2, 0, 0));

    let keyed: HashMap<usize, Vec<Vec<i32>>> = HashMap::from_iter([(4, vec![vec![7]])]);
    assert_eq!(Some(7), keyed.at(4, 0, 0));
    assert_eq!(None, keyed.at(5, 0, 0));

    let scalar = Scalar::new(5);
    assert_eq!(Some(5), scalar.get_val_by_key((1, 2, 3)));
    let none: Scalar<i32> = Scalar::none();
    assert_eq!(None, none.get_val_by_key((1, 2, 3)));
}

#[test]
fn keyed_d3_ref() {
    let nested: Vec<Vec<Vec<i32>>> = vec![vec![vec![1, 2]]];
    assert_eq!(Some(&2), nested.get_ref_by_key((0, 0, 1)));
    assert_eq!(None, nested.get_ref_by_key((0, 1, 0)));
    assert_eq!(Some(&1), FunVecRefD3::ref_at(&nested, 0, 0, 0));

    let scalar = ScalarAsVec(6);
    assert_eq!(Some(&6), scalar.get_ref_by_key((3, 4, 5)));
    let empty: EmptyVec<i32> = EmptyVec::new();
    assert_eq!(None, empty.get_ref_by_key((3, 4, 5)));
}

#[test]
fn keyed_d3_iter() {
    let composite: BTreeMap<(usize, usize, usize), i32> = BTreeMap::from_iter([((1, 2, 3), 9)]);

    let mut collected: Vec<Option<i32>> = Vec::new();
    let mut it = composite.iter_over(vec![(1, 2, 3), (3, 2, 1)]);
    while let Some(r) = it.next() {
        collected.push(r);
    }
    assert_eq!(collected, vec![Some(9), None]);
}

#[test]
fn keyed_d4_val() {
    let nested: Vec<Vec<Vec<Vec<i32>>>> = vec![vec![vec![vec![8]]]];
    assert_eq!(Some(8), nested.get_value_at((0, 0, 0, 0)));
    assert_eq!(Some(8), nested.at(0, 0, 0, 0));
    assert_eq!(None, nested.at(0, 0, 0, 1));
    assert_eq!(None, nested.at(1, 0, 0, 0));

    let scalar = ScalarAsVec(5);
    assert_eq!(Some(5), scalar.get_value_at((1, 2, 3, 4)));
    let empty: EmptyVec<i32> = EmptyVec::new();
    assert_eq!(None, empty.get_value_at((1, 2, 3, 4)));

    let composite: BTreeMap<(usize, usize, usize, usize), i32> =
        BTreeMap::from_iter([((1, 2, 3, 4), 9)]);
    assert_eq!(Some(9), composite.at(1, 2, 3, 4));
    assert_eq!(None, composite.at(4, 3, 2, 1));
}

#[test]
fn keyed_d4_ref() {
    let nested: Vec<Vec<Vec<Vec<i32>>>> = vec![vec![vec![vec![8]]]];
    assert_eq!(Some(&8), nested.get_ref_at((0, 0, 0, 0)));
    assert_eq!(None, nested.get_ref_at((0, 1, 0, 0)));
    assert_eq!(Some(&8), FunVecRefD4::ref_at(&nested, 0, 0, 0, 0));

    let scalar = ScalarAsVec(6);
    assert_eq!(Some(&6), scalar.get_ref_at((3, 4, 5, 6)));
}

#[test]
fn keyed_d4_iter() {
    let keyed: HashMap<usize, Vec<Vec<Vec<i32>>>> = HashMap::from_iter([(2, vec![vec![vec![7]]])]);

    let mut collected: Vec<Option<i32>> = Vec::new();
    let mut it = keyed.iter_over(vec![(2, 0, 0, 0), (0, 0, 0, 0)]);
    while let Some(r) = it.next() {
        collected.push(r);
    }
    assert_eq!(collected, vec![Some(7), None]);

    let mut ref_collected: Vec<Option<&i32>> = Vec::new();
    let mut it = FunVecRefD4::ref_iter_over(&keyed, vec![(2, 0, 0, 0)]);
    while let Some(r) = it.next() {
        ref_collected.push(r);
    }
    assert_eq!(ref_collected, vec![Some(&7)]);
}
