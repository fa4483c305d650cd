//! Hashing of views: a view is hashed as the slice of its visible elements.

use vstd::prelude::*;
use core::hash::Hash;
use core::hash::Hasher;
use crate::cowslice::CowSlice;

verus! {

/// `<[u64] as Hash>::hash`: feeds the length and the elements of the slice to
/// the hasher. What a hasher makes of them is its own affair, so nothing is
/// claimed about its state.
#[verifier::external_body]
fn hash_elements<H: Hasher>(items: &[u64], state: &mut H) {
    items.hash(state)
}

impl Hash for CowSlice {
    /// Hashes the slice of the visible elements: neither the buffer behind
    /// the view nor its offsets reach the hasher, so views that are equal
    /// feed a hasher alike.
    fn hash<H: Hasher>(&self, state: &mut H) {
        hash_elements(&**self, state)
    }
}

} // verus!
