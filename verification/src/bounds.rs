//! The two ends of a range handed to `CowSlice::slice`.

use vstd::prelude::*;

verus! {

/// One end of a range of positions: a position that belongs to the range, a
/// position just outside it, or no limit on that side.
#[derive(Clone, Copy, Debug)]
pub enum SliceBound {
    Included(usize),
    Excluded(usize),
    Unbounded,
}

impl SliceBound {
    /// The first position of a range that starts with this bound.
    pub open spec fn lower(self) -> int {
        match self {
            SliceBound::Included(k) => k as int,
            SliceBound::Excluded(k) => k + 1,
            SliceBound::Unbounded => 0,
        }
    }

    /// The position just past the last one of a range that ends with this
    /// bound, in a sequence of `len` elements.
    pub open spec fn upper(self, len: int) -> int {
        match self {
            SliceBound::Included(k) => k + 1,
            SliceBound::Excluded(k) => k as int,
            SliceBound::Unbounded => len,
        }
    }
}

/// Whether `start` and `end` bound a range of a sequence of `len` elements:
/// the range does not end before it starts, nor past the sequence.
pub open spec fn range_fits(start: SliceBound, end: SliceBound, len: int) -> bool {
    0 <= start.lower() <= end.upper(len) <= len
}

} // verus!
