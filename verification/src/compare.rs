//! Equality and lexicographic order of views. Both look at the visible
//! elements only: never at the buffer behind them, nor at the offsets.

use vstd::prelude::*;
use core::cmp::Ordering;
use vstd::std_specs::cmp::PartialEqSpec;
use crate::cowslice::CowSlice;

verus! {

/// `a` and `b` hold the same elements at every position before `k`.
pub open spec fn agree_before(a: Seq<u64>, b: Seq<u64>, k: int) -> bool {
    forall|j: int| 0 <= j < k ==> a[j] == b[j]
}

/// `k` is the first position at which `a` and `b` part: they agree before
/// it, and at `k` one of them has ended or they hold different elements.
pub open spec fn first_difference(a: Seq<u64>, b: Seq<u64>, k: int) -> bool {
    &&& 0 <= k <= a.len()
    &&& k <= b.len()
    &&& agree_before(a, b, k)
    &&& (k == a.len() || k == b.len() || a[k] != b[k])
}

/// `a` comes before `b` in lexicographic order: where they first part, `a`
/// has ended and `b` has not, or `a` holds the smaller element.
pub open spec fn lex_less(a: Seq<u64>, b: Seq<u64>) -> bool {
    exists|k: int| #[trigger] first_difference(a, b, k) && k < b.len() && (k == a.len() || a[k] < b[k])
}

/// The lexicographic order of `a` and `b`.
pub open spec fn lex_order(a: Seq<u64>, b: Seq<u64>) -> Ordering {
    if lex_less(a, b) {
        Ordering::Less
    } else if lex_less(b, a) {
        Ordering::Greater
    } else {
        Ordering::Equal
    }
}

/// Two sequences part at one position only.
pub proof fn lemma_first_difference_unique(a: Seq<u64>, b: Seq<u64>, k1: int, k2: int)
    requires
        first_difference(a, b, k1),
        first_difference(a, b, k2),
    ensures
        k1 == k2,
{
    if k1 < k2 {
        assert(a[k1] == b[k1]);
    } else if k2 < k1 {
        assert(a[k2] == b[k2]);
    }
}

/// Where two sequences first part decides how they compare, and "equal",
/// "less" and "greater" can be read off there.
pub proof fn lemma_decided_at(a: Seq<u64>, b: Seq<u64>, k: int)
    requires
        first_difference(a, b, k),
    ensures
        a == b <==> (k == a.len() && k == b.len()),
        lex_less(a, b) <==> (k < b.len() && (k == a.len() || a[k] < b[k])),
        lex_less(b, a) <==> (k < a.len() && (k == b.len() || b[k] < a[k])),
{
    assert(first_difference(b, a, k));
    if k == a.len() && k == b.len() {
        assert(a =~= b);
    }
    if lex_less(a, b) {
        let k1 = choose|k1: int| #[trigger]
            first_difference(a, b, k1) && k1 < b.len() && (k1 == a.len() || a[k1] < b[k1]);
        lemma_first_difference_unique(a, b, k, k1);
    }
    if lex_less(b, a) {
        let k2 = choose|k2: int| #[trigger]
            first_difference(b, a, k2) && k2 < a.len() && (k2 == b.len() || b[k2] < a[k2]);
        lemma_first_difference_unique(b, a, k, k2);
    }
}

/// Any two sequences part somewhere.
pub proof fn lemma_first_difference_exists(a: Seq<u64>, b: Seq<u64>) -> (k: int)
    ensures
        first_difference(a, b, k),
    decreases a.len(),
{
    if a.len() == 0 || b.len() == 0 || a[0] != b[0] {
        0
    } else {
        let rest = lemma_first_difference_exists(a.drop_first(), b.drop_first());
        let k = rest + 1;
        assert forall|j: int| 0 <= j < k implies a[j] == b[j] by {
            if j > 0 {
                assert(a.drop_first()[j - 1] == b.drop_first()[j - 1]);
            }
        }
        if k < a.len() && k < b.len() {
            assert(a.drop_first()[rest] != b.drop_first()[rest]);
        }
        k
    }
}

/// Of "equal", "less" and "greater" exactly one holds of any two sequences.
/// The order is therefore total, and agrees with equality.
pub proof fn lemma_lex_trichotomy(a: Seq<u64>, b: Seq<u64>)
    ensures
        a == b || lex_less(a, b) || lex_less(b, a),
        !(a == b && lex_less(a, b)),
        !(a == b && lex_less(b, a)),
        !(lex_less(a, b) && lex_less(b, a)),
{
    let k = lemma_first_difference_exists(a, b);
    lemma_decided_at(a, b, k);
}

/// Views that show the same elements are equal and compare as equal,
/// whatever buffers and offsets stand behind them; views that show different
/// elements are neither.
pub proof fn lemma_equal_by_contents(a: CowSlice, b: CowSlice)
    ensures
        a.eq_spec(&b) <==> a@ == b@,
        lex_order(a@, b@) == Ordering::Equal <==> a@ == b@,
        lex_order(a@, b@) == Ordering::Less <==> lex_order(b@, a@) == Ordering::Greater,
{
    lemma_lex_trichotomy(a@, b@);
}

/// The position at which two slices first part, from which their equality
/// and their order can be read.
pub fn first_difference_of(a: &[u64], b: &[u64]) -> (k: usize)
    ensures
        first_difference(a@, b@, k as int),
        a@ == b@ <==> (k == a@.len() && k == b@.len()),
        lex_less(a@, b@) <==> (k < b@.len() && (k == a@.len() || a@[k as int] < b@[k as int])),
        lex_less(b@, a@) <==> (k < a@.len() && (k == b@.len() || b@[k as int] < a@[k as int])),
{
    let mut k: usize = 0;
    while k < a.len() && k < b.len() && a[k] == b[k]
        invariant
            k <= a.len(),
            k <= b.len(),
            agree_before(a@, b@, k as int),
        decreases a.len() - k,
    {
        k = k + 1;
    }
    proof {
        lemma_decided_at(a@, b@, k as int);
    }
    k
}

/// Whether two slices hold the same elements.
pub fn same_elements(a: &[u64], b: &[u64]) -> (same: bool)
    ensures
        same == (a@ == b@),
{
    let k = first_difference_of(a, b);
    k == a.len() && k == b.len()
}

/// The lexicographic order of two slices.
pub fn lex_compare(a: &[u64], b: &[u64]) -> (order: Ordering)
    ensures
        order == lex_order(a@, b@),
{
    let k = first_difference_of(a, b);
    if k == b.len() {
        if k == a.len() {
            Ordering::Equal
        } else {
            Ordering::Greater
        }
    } else if k == a.len() || a[k] < b[k] {
        Ordering::Less
    } else {
        Ordering::Greater
    }
}

impl CowSlice {
    /// The lexicographic order of what two views show.
    pub fn cmp(&self, other: &Self) -> (order: Ordering)
        ensures
            order == lex_order(self@, other@),
    {
        lex_compare(&**self, &**other)
    }
}

impl PartialEq for CowSlice {
    /// Whether two views show the same elements.
    fn eq(&self, other: &Self) -> (same: bool) {
        same_elements(&**self, &**other)
    }
}

impl vstd::std_specs::cmp::PartialEqSpecImpl for CowSlice {
    open spec fn obeys_eq_spec() -> bool {
        true
    }

    open spec fn eq_spec(&self, other: &Self) -> bool {
        self@ == other@
    }
}

impl Eq for CowSlice {

}

impl PartialEq<[u64]> for CowSlice {
    /// Whether the view shows the elements of `other`.
    fn eq(&self, other: &[u64]) -> (same: bool) {
        same_elements(&**self, other)
    }
}

impl vstd::std_specs::cmp::PartialEqSpecImpl<[u64]> for CowSlice {
    open spec fn obeys_eq_spec() -> bool {
        true
    }

    open spec fn eq_spec(&self, other: &[u64]) -> bool {
        self@ == other@
    }
}

impl PartialEq<Vec<u64>> for CowSlice {
    /// Whether the view shows the elements of `other`.
    fn eq(&self, other: &Vec<u64>) -> (same: bool) {
        same_elements(&**self, other.as_slice())
    }
}

impl vstd::std_specs::cmp::PartialEqSpecImpl<Vec<u64>> for CowSlice {
    open spec fn obeys_eq_spec() -> bool {
        true
    }

    open spec fn eq_spec(&self, other: &Vec<u64>) -> bool {
        self@ == other@
    }
}

impl<const N: usize> PartialEq<[u64; N]> for CowSlice {
    /// Whether the view shows the elements of `other`.
    fn eq(&self, other: &[u64; N]) -> (same: bool) {
        same_elements(&**self, other.as_slice())
    }
}

impl<const N: usize> vstd::std_specs::cmp::PartialEqSpecImpl<[u64; N]> for CowSlice {
    open spec fn obeys_eq_spec() -> bool {
        true
    }

    open spec fn eq_spec(&self, other: &[u64; N]) -> bool {
        self@ == other@
    }
}

impl PartialOrd for CowSlice {
    /// The lexicographic order of what two views show.
    fn partial_cmp(&self, other: &Self) -> (order: Option<Ordering>) {
        Some(lex_compare(&**self, &**other))
    }
}

impl vstd::std_specs::cmp::PartialOrdSpecImpl for CowSlice {
    open spec fn obeys_partial_cmp_spec() -> bool {
        true
    }

    open spec fn partial_cmp_spec(&self, other: &Self) -> Option<Ordering> {
        Some(lex_order(self@, other@))
    }
}

} // verus!
