use orx_funvec::{EmptyVec, FromIndex, FunVec, FunVecRef, IntoIndex, ScalarAsVec};
use std::collections::BTreeMap;
use std::collections::HashMap;

#[test]
fn dense_sequence_scenario() {
    let vec = vec![10, 11, 12, 13];

    assert_eq!(Some(13), vec.at(3));
    assert_eq!(None, vec.at(4));

    let mut it = vec.iter_over((1..3).collect());
    assert_eq!(Some(Some(11)), it.next());
    assert_eq!(Some(Some(12)), it.next());
    assert_eq!(None, it.next());
    assert_eq!(None, it.next());
}

#[test]
fn keyed_map_scenario() {
    let map: HashMap<usize, i32> = HashMap::from_iter([(1, 10), (2, 20)]);

    assert_eq!(Some(10), map.at(1));
    assert_eq!(None, map.at(0));
}

#[test]
fn constant_source_scenario() {
    let source = ScalarAsVec(42);

    assert_eq!(Some(42), source.at(7));
    assert_eq!(Some(42), source.at([100, 5]));
    assert_eq!(Some(42), source.at((1000000, 9, 9)));
    assert_eq!(Some(42), source.at((1, 2, 3, 4)));
    assert_eq!(Some(&42), source.ref_at(7));
    assert_eq!(Some(&42), source.ref_at([100, 5]));
}

#[test]
fn empty_source_scenario() {
    let source: EmptyVec<i32> = EmptyVec::new();

    assert_eq!(None, source.at(5));
    assert_eq!(None, source.at((1, 2)));
    assert_eq!(None, source.at((1, 2, 3)));
    assert_eq!(None, source.at((1, 2, 3, 4)));
    assert_eq!(None, source.ref_at(5));
    assert_eq!(None, source.ref_at((1, 2)));
    assert_eq!(None, source.ref_at((1, 2, 3)));
    assert_eq!(None, source.ref_at((1, 2, 3, 4)));
}

#[test]
fn nested_composition_scenario() {
    let mut inner: HashMap<usize, i32> = HashMap::new();
    inner.insert(7, 20);
    let outer: Vec<HashMap<usize, i32>> = vec![inner];

    assert_eq!(Some(20), outer.at((0, 7)));
    assert_eq!(None, outer.at((0, 8)));
    assert_eq!(None, outer.at((1, 7)));
}

#[test]
fn summation_matches_pointwise() {
    let vec = vec![3, 1, 4, 1, 5, 9];
    let indices: Vec<usize> = vec![0, 2, 3, 9];

    let mut iterated = 0;
    let mut it = vec.iter_over(indices.clone());
    while let Some(r) = it.next() {
        if let Some(v) = r {
            iterated += v;
        }
    }

    let mut pointwise = 0;
    for &i in indices.iter() {
        if let Some(v) = vec.at(i) {
            pointwise += v;
        }
    }

    assert_eq!(iterated, pointwise);
    assert_eq!(8, iterated);
}

#[test]
fn iteration_order_preserved() {
    let vec = vec![10, 20, 30];

    let mut collected: Vec<Option<i32>> = Vec::new();
    let mut it = vec.iter_over(vec![2, 0, 1, 9]);
    while let Some(r) = it.next() {
        collected.push(r);
    }
    assert_eq!(collected, vec![Some(30), Some(10), Some(20), None]);

    let mut ref_collected: Vec<Option<&i32>> = Vec::new();
    let mut it = vec.ref_iter_over(vec![2, 0, 1, 9]);
    while let Some(r) = it.next() {
        ref_collected.push(r);
    }
    assert_eq!(ref_collected, vec![Some(&30), Some(&10), Some(&20), None]);
}

#[test]
fn composite_key_btreemap() {
    let mut d2: BTreeMap<(usize, usize), i32> = BTreeMap::new();
    d2.insert((1, 2), 5);
    assert_eq!(Some(5), d2.at((1, 2)));
    assert_eq!(None, d2.at((2, 1)));
    assert_eq!(Some(&5), d2.ref_at((1, 2)));

    let mut d3: BTreeMap<(usize, usize, usize), i32> = BTreeMap::new();
    d3.insert((1, 2, 3), 6);
    assert_eq!(Some(6), d3.at((1, 2, 3)));
    assert_eq!(None, d3.at((3, 2, 1)));

    let mut d4: BTreeMap<(usize, usize, usize, usize), i32> = BTreeMap::new();
    d4.insert((1, 2, 3, 4), 7);
    assert_eq!(Some(7), d4.at((1, 2, 3, 4)));
    assert_eq!(None, d4.at((4, 3, 2, 1)));
}

#[test]
fn deep_nesting_scenario() {
    let d3: Vec<Vec<Vec<i32>>> = vec![vec![vec![1, 2], vec![3]], vec![vec![4]]];
    assert_eq!(Some(2), d3.at((0, 0, 1)));
    assert_eq!(Some(4), d3.at((1, 0, 0)));
    assert_eq!(None, d3.at((0, 1, 1)));
    assert_eq!(None, d3.at((2, 0, 0)));

    let d4: Vec<Vec<Vec<Vec<i32>>>> = vec![vec![vec![vec![8]]]];
    assert_eq!(Some(8), d4.at((0, 0, 0, 0)));
    assert_eq!(None, d4.at((0, 0, 0, 1)));
    assert_eq!(Some(&8), d4.ref_at((0, 0, 0, 0)));
}

#[test]
fn array_sources() {
    let d2: [[i32; 2]; 2] = [[1, 2], [3, 4]];
    assert_eq!(Some(3), d2.at((1, 0)));
    assert_eq!(None, d2.at((2, 0)));
    assert_eq!(None, d2.at((0, 2)));
    assert_eq!(Some(&4), d2.ref_at((1, 1)));
}

#[test]
fn index_conversions() {
    assert_eq!([5], 5usize.into_index());
    assert_eq!([3, 4], (3, 4).into_index());
    assert_eq!([3, 4, 5], (3, 4, 5).into_index());
    assert_eq!([3, 4, 5, 6], (3, 4, 5, 6).into_index());
    assert_eq!([7, 8], [7, 8].into_index());

    assert_eq!(5, usize::from_index([5]));
    assert_eq!((3, 4), <(usize, usize)>::from_index([3, 4]));
    assert_eq!((3, 4, 5), <(usize, usize, usize)>::from_index([3, 4, 5]));
    assert_eq!((3, 4, 5, 6), <(usize, usize, usize, usize)>::from_index([3, 4, 5, 6]));
    assert_eq!([7, 8], <[usize; 2]>::from_index([7, 8]));
}
