use cowslice::{CowSlice, SliceBound};
use ecow::EcoVec;
use std::borrow::Borrow;

#[test]
fn new_and_default_are_empty() {
    let fresh = CowSlice::new();
    assert_eq!(fresh.len(), 0);
    assert!(fresh.is_empty());
    let default = CowSlice::default();
    assert!(default == fresh);
    assert!(default == Vec::new());
}

#[test]
fn from_array_vec_slice_and_buffer_show_everything() {
    let from_array = CowSlice::from([4, 5, 6]);
    let from_vec = CowSlice::from(vec![4, 5, 6]);
    let items: &[u64] = &[4, 5, 6];
    let from_slice = CowSlice::from(items);
    let from_buffer = CowSlice::from(EcoVec::from([4, 5, 6]));
    assert_eq!(&*from_array, [4, 5, 6]);
    assert_eq!(&*from_vec, [4, 5, 6]);
    assert_eq!(&*from_slice, [4, 5, 6]);
    assert_eq!(&*from_buffer, [4, 5, 6]);
}

#[test]
fn every_valid_range_shows_that_range() {
    let items: Vec<u64> = vec![10, 11, 12, 13, 14];
    let view = CowSlice::from(items.clone());
    for lo in 0..=items.len() {
        for hi in lo..=items.len() {
            let start = SliceBound::Included(lo);
            let end = SliceBound::Excluded(hi);
            assert!(view.can_slice(start, end));
            let sub = view.slice(start, end);
            assert_eq!(&*sub, &items[lo..hi]);
        }
    }
}

#[test]
fn bounds_of_each_kind() {
    let view = CowSlice::from([0, 1, 2, 3, 4, 5]);
    assert!(view.slice(SliceBound::Included(1), SliceBound::Included(3)) == [1, 2, 3]);
    assert!(view.slice(SliceBound::Included(1), SliceBound::Excluded(3)) == [1, 2]);
    assert!(view.slice(SliceBound::Excluded(1), SliceBound::Included(3)) == [2, 3]);
    assert!(view.slice(SliceBound::Excluded(1), SliceBound::Excluded(3)) == [2]);
    assert!(view.slice(SliceBound::Unbounded, SliceBound::Excluded(2)) == [0, 1]);
    assert!(view.slice(SliceBound::Included(4), SliceBound::Unbounded) == [4, 5]);
    assert!(view.slice(SliceBound::Unbounded, SliceBound::Unbounded) == [0, 1, 2, 3, 4, 5]);
    assert!(view.slice(SliceBound::Included(6), SliceBound::Unbounded).is_empty());
    assert!(view.slice(SliceBound::Excluded(5), SliceBound::Excluded(6)).is_empty());
}

#[test]
fn slice_of_slice_counts_from_the_window() {
    let view = CowSlice::from([0, 1, 2, 3, 4, 5, 6, 7]);
    let middle = view.slice(SliceBound::Included(2), SliceBound::Excluded(7));
    assert!(middle == [2, 3, 4, 5, 6]);
    let inner = middle.slice(SliceBound::Included(1), SliceBound::Included(2));
    assert!(inner == [3, 4]);
    let tail = inner.slice(SliceBound::Excluded(0), SliceBound::Unbounded);
    assert!(tail == [4]);
}

#[test]
fn can_slice_refuses_ranges_that_do_not_fit() {
    let view = CowSlice::from([1, 2, 3]);
    assert!(!view.can_slice(SliceBound::Included(2), SliceBound::Excluded(1)));
    assert!(!view.can_slice(SliceBound::Unbounded, SliceBound::Excluded(4)));
    assert!(!view.can_slice(SliceBound::Unbounded, SliceBound::Included(3)));
    assert!(!view.can_slice(SliceBound::Included(4), SliceBound::Unbounded));
    assert!(!view.can_slice(SliceBound::Excluded(3), SliceBound::Unbounded));
    assert!(!view.can_slice(SliceBound::Excluded(usize::MAX), SliceBound::Unbounded));
    assert!(!view.can_slice(SliceBound::Unbounded, SliceBound::Included(usize::MAX)));
    assert!(view.can_slice(SliceBound::Included(3), SliceBound::Unbounded));
    assert!(view.can_slice(SliceBound::Excluded(2), SliceBound::Excluded(3)));
    assert!(view.can_slice(SliceBound::Unbounded, SliceBound::Included(2)));
    let sub = view.slice(SliceBound::Included(1), SliceBound::Unbounded);
    assert!(!sub.can_slice(SliceBound::Unbounded, SliceBound::Excluded(3)));
    assert!(sub.can_slice(SliceBound::Unbounded, SliceBound::Excluded(2)));
}

#[test]
fn truncate_shortens_the_window() {
    let mut view = CowSlice::from([1, 2, 3, 4]);
    assert!(view.can_truncate(4));
    assert!(!view.can_truncate(5));
    view.truncate(3);
    assert!(view == [1, 2, 3]);
    view.truncate(0);
    assert!(view.is_empty());
}

#[test]
fn truncate_counts_from_the_start_of_the_window() {
    let view = CowSlice::from([1, 2, 3, 4, 5]);
    let mut sub = view.slice(SliceBound::Included(2), SliceBound::Excluded(4));
    assert!(sub == [3, 4]);
    assert!(sub.can_truncate(3));
    assert!(!sub.can_truncate(4));
    sub.truncate(1);
    assert!(sub == [3]);
    sub.truncate(3);
    assert!(sub == [3, 4, 5]);
    assert!(view == [1, 2, 3, 4, 5]);
}

#[test]
fn round_trip_through_a_view() {
    let empty: Vec<u64> = Vec::new();
    assert_eq!(CowSlice::from(empty.clone()).into_vec(), empty);
    assert_eq!(CowSlice::from(empty.clone()).to_vec(), empty);
    let single: Vec<u64> = vec![42];
    assert_eq!(CowSlice::from(single.clone()).into_vec(), single);
    assert_eq!(CowSlice::from(single.clone()).to_vec(), single);
    let many: Vec<u64> = vec![3, 1, 4, 1, 5, 9, 2, 6];
    assert_eq!(CowSlice::from(many.clone()).into_vec(), many);
    assert_eq!(CowSlice::from(many.clone()).to_vec(), many);
    assert_eq!(CowSlice::from(many.as_slice()).into_vec(), many);
}

#[test]
fn into_vec_hands_out_the_window_only() {
    let view = CowSlice::from([1, 2, 3, 4, 5]);
    let sub = view.slice(SliceBound::Included(1), SliceBound::Excluded(4));
    assert_eq!(sub.clone().into_vec(), vec![2, 3, 4]);
    drop(view);
    assert_eq!(sub.into_vec(), vec![2, 3, 4]);
}

#[test]
fn iteration_stays_inside_the_window() {
    let view = CowSlice::from([1, 2, 3, 4, 5]);
    let mut sub = view.slice(SliceBound::Included(1), SliceBound::Excluded(4));
    let seen: Vec<u64> = sub.iter().copied().collect();
    assert_eq!(seen, vec![2, 3, 4]);
    for item in sub.iter_mut() {
        *item += 10;
    }
    assert!(sub == [12, 13, 14]);
    assert!(view == [1, 2, 3, 4, 5]);
}

#[test]
fn extend_appends_in_order() {
    let mut view = CowSlice::new();
    view.extend(vec![1, 2]);
    view.extend(Vec::new());
    view.extend(vec![3]);
    assert!(view == [1, 2, 3]);
}

#[test]
fn borrowed_forms_show_the_window() {
    let view = CowSlice::from([1, 2, 3, 4]);
    let sub = view.slice(SliceBound::Included(1), SliceBound::Included(2));
    let by_ref: &[u64] = sub.as_ref();
    assert_eq!(by_ref, [2, 3]);
    let by_borrow: &[u64] = sub.borrow();
    assert_eq!(by_borrow, [2, 3]);
    assert_eq!(sub[0], 2);
    assert_eq!(sub.first(), Some(&2));
    assert_eq!(sub.last(), Some(&3));
}
