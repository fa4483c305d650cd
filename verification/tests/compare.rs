use cowslice::compare::{first_difference_of, lex_compare, same_elements};
use cowslice::{CowSlice, SliceBound};
use std::cmp::Ordering;
use std::collections::hash_map::DefaultHasher;
use std::hash::{Hash, Hasher};

fn digest(view: &CowSlice) -> u64 {
    let mut hasher = DefaultHasher::new();
    view.hash(&mut hasher);
    hasher.finish()
}

#[test]
fn equal_contents_are_equal_whatever_the_storage() {
    let whole = CowSlice::from([2, 3, 4]);
    let wide = CowSlice::from([1, 2, 3, 4, 5]);
    let window = wide.slice(SliceBound::Included(1), SliceBound::Excluded(4));
    let mut cut = CowSlice::from([2, 3, 4, 9]);
    cut.truncate(3);
    assert!(whole == window);
    assert!(window == whole);
    assert!(whole == cut);
    assert!(whole != wide);
    assert_eq!(digest(&whole), digest(&window));
    assert_eq!(digest(&whole), digest(&cut));
}

#[test]
fn hash_is_the_hash_of_the_visible_slice() {
    let wide = CowSlice::from([1, 2, 3, 4, 5]);
    let window = wide.slice(SliceBound::Included(1), SliceBound::Excluded(4));
    let items: &[u64] = &[2, 3, 4];
    let mut hasher = DefaultHasher::new();
    items.hash(&mut hasher);
    assert_eq!(digest(&window), hasher.finish());
    assert_ne!(digest(&window), digest(&wide));
}

#[test]
fn equality_with_slices_vectors_and_arrays() {
    let view = CowSlice::from([1, 2, 3]);
    let items: &[u64] = &[1, 2, 3];
    assert!(view == *items);
    assert!(view == vec![1, 2, 3]);
    assert!(view == [1, 2, 3]);
    assert!(view != [1, 2]);
    assert!(view != [1, 2, 4]);
    assert!(view != vec![1, 2, 3, 4]);
    assert!(view != [0u64; 0]);
}

#[test]
fn order_is_lexicographic() {
    let short = CowSlice::from([1, 2]);
    let long = CowSlice::from([1, 2, 3]);
    let high = CowSlice::from([1, 3]);
    let empty = CowSlice::new();
    assert_eq!(short.cmp(&long), Ordering::Less);
    assert_eq!(long.cmp(&short), Ordering::Greater);
    assert_eq!(long.cmp(&high), Ordering::Less);
    assert_eq!(high.cmp(&long), Ordering::Greater);
    assert_eq!(long.cmp(&long.clone()), Ordering::Equal);
    assert_eq!(empty.cmp(&short), Ordering::Less);
    assert_eq!(empty.cmp(&CowSlice::new()), Ordering::Equal);
    assert_eq!(short.partial_cmp(&high), Some(Ordering::Less));
    assert!(short < long);
    assert!(high > long);
    assert!(long <= long.clone());
    assert!(empty < short);
}

#[test]
fn order_agrees_with_slices() {
    let lists: [&[u64]; 6] = [&[], &[0], &[0, 0], &[0, 1], &[1], &[1, 0]];
    for a in lists {
        for b in lists {
            let left = CowSlice::from(a);
            let right = CowSlice::from(b);
            assert_eq!(left.cmp(&right), a.cmp(b));
            assert_eq!(left == right, a == b);
            assert_eq!(lex_compare(a, b), a.cmp(b));
            assert_eq!(same_elements(a, b), a == b);
        }
    }
}

#[test]
fn first_difference_positions() {
    assert_eq!(first_difference_of(&[], &[]), 0);
    assert_eq!(first_difference_of(&[1, 2, 3], &[1, 2, 3]), 3);
    assert_eq!(first_difference_of(&[1, 2, 3], &[1, 2]), 2);
    assert_eq!(first_difference_of(&[1, 2], &[1, 2, 3]), 2);
    assert_eq!(first_difference_of(&[1, 5, 3], &[1, 2, 3]), 1);
    assert_eq!(first_difference_of(&[9], &[8]), 0);
}
