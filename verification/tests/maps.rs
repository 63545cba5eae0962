use orx_funvec::funvec_d1::{FunVecD1, FunVecRefD1};
use std::collections::BTreeMap;
use std::collections::HashMap;

fn at<F: FunVecRefD1<char> + FunVecD1<char>>(map: F) {
    assert_eq!(Some(&'a'), map.ref_at(0));
    assert_eq!(Some(&'b'), map.ref_at(10));
    assert_eq!(Some(&'c'), map.ref_at(20));
    assert_eq!(None, map.ref_at(1));

    assert_eq!(Some('a'), map.at(0));
    assert_eq!(Some('b'), map.at(10));
    assert_eq!(Some('c'), map.at(20));
    assert_eq!(None, map.at(1));
}

fn iter<F: FunVecRefD1<char> + FunVecD1<char>>(map: F) {
    let mut slice: Vec<Option<&char>> = Vec::new();
    let mut it = map.ref_iter_over((0..4).collect());
    while let Some(r) = it.next() {
        slice.push(r);
    }
    assert_eq!(&slice, &[Some(&'a'), None, Some(&'b'), None]);

    let mut slice: Vec<Option<char>> = Vec::new();
    let mut it = map.iter_over((0..4).collect());
    while let Some(r) = it.next() {
        slice.push(r);
    }
    assert_eq!(&slice, &[Some('a'), None, Some('b'), None]);

    let mut joined = String::new();
    let mut it = map.ref_iter_over((0..100).collect());
    while let Some(r) = it.next() {
        if let Some(c) = r {
            joined.push(*c);
        }
    }
    assert_eq!("abc", &joined);

    let mut joined = String::new();
    let mut it = map.iter_over((0..100).collect());
    while let Some(r) = it.next() {
        if let Some(c) = r {
            joined.push(c);
        }
    }
    assert_eq!("abc", &joined);
}

#[test]
fn hashmap_at_iter() {
    at(HashMap::from_iter([(0, 'a'), (10, 'b'), (20, 'c')].into_iter()));

    iter(HashMap::from_iter([(0, 'a'), (2, 'b'), (4, 'c')].into_iter()));
}

#[test]
fn btreemap_at_iter() {
    at(BTreeMap::from_iter([(0, 'a'), (10, 'b'), (20, 'c')].into_iter()));

    iter(BTreeMap::from_iter([(0, 'a'), (2, 'b'), (4, 'c')].into_iter()));
}
