use cowslice::{CowSlice, SliceBound};

#[test]
fn cow_slice_modify() {
    let mut slice = CowSlice::from([1, 2, 3]);
    slice.modify(|vec| vec.push(4));
    assert!(slice == [1, 2, 3, 4]);

    let mut sub = slice.slice(SliceBound::Included(1), SliceBound::Included(2));
    sub.modify(|vec| vec.push(5));
    assert!(slice == [1, 2, 3, 4]);
    assert!(sub == [2, 3, 5]);
}

#[test]
fn cow_slice_deref_mut() {
    let mut slice = CowSlice::from([1, 2, 3, 4]);
    slice[1] = 7;
    assert!(slice == [1, 7, 3, 4]);

    let mut sub = slice.slice(SliceBound::Included(1), SliceBound::Included(2));
    sub[1] = 5;
    assert!(slice == [1, 7, 3, 4]);
    assert!(sub == [7, 5]);
}
