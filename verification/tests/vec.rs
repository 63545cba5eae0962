use orx_funvec::{FunVec, FunVecRef};

#[test]
fn vec_at() {
    let vec = vec![1, 2, 3];

    assert_eq!(vec.at(0), Some(1));
    assert_eq!(vec.ref_at(1), Some(&2));
    assert_eq!(vec.at(4), None);
    assert_eq!(vec.ref_at(4), None);
}

#[test]
fn vec_iter() {
    let vec = vec![1, 2, 3];

    let mut collected: Vec<Option<i32>> = Vec::new();
    let mut it = vec.iter_over((2..4).collect());
    while let Some(r) = it.next() {
        collected.push(r);
    }
    assert_eq!(collected, vec![Some(3), None]);

    let mut ref_collected: Vec<Option<&i32>> = Vec::new();
    let mut it = vec.ref_iter_over((2..4).collect());
    while let Some(r) = it.next() {
        ref_collected.push(r);
    }
    assert_eq!(ref_collected, vec![Some(&3), None]);

    let mut sum = 0;
    let mut it = vec.iter_over((0..2).collect());
    while let Some(r) = it.next() {
        if let Some(v) = r {
            sum += v;
        }
    }
    assert_eq!(sum, 3);

    let mut ref_sum = 0;
    let mut it = vec.ref_iter_over((0..2).collect());
    while let Some(r) = it.next() {
        if let Some(v) = r {
            ref_sum += *v;
        }
    }
    assert_eq!(ref_sum, 3);
}
