//! The shared buffer underneath every view: `ecow::EcoVec<u64>`.
//!
//! An `EcoVec` is a reference-counted, contiguous, growable run of elements.
//! Cloning it bumps a share count; every mutating method first makes the
//! allocation its own. To the verifier the type is opaque. This module gives
//! its contents a name, [`buffer_items`], and states, without proof, what each
//! `EcoVec` method used by this crate does to them. Everything in the rest of
//! the crate is proved from these statements.
//!
//! Like the `Vec` specifications of `vstd`, the statements describe the calls
//! that return: a request for memory that the allocator cannot serve ends the
//! program, here as anywhere else.

use vstd::prelude::*;
use ecow::EcoVec;

verus! {

/// `ecow::EcoVec`, declared without its fields: a value of it is known only
/// through the functions below.
#[verifier::external_type_specification]
#[verifier::external_body]
#[verifier::reject_recursive_types(T)]
pub struct ExEcoVec<T>(EcoVec<T>);

/// The elements that a buffer holds, first to last.
pub uninterp spec fn buffer_items(buf: EcoVec<u64>) -> Seq<u64>;

/// `EcoVec::new`: an empty buffer. It does not allocate.
#[verifier::external_body]
pub(crate) fn buffer_new() -> (buf: EcoVec<u64>)
    ensures
        buffer_items(buf) == Seq::<u64>::empty(),
{
    EcoVec::new()
}

/// `EcoVec::len`: the number of elements held.
#[verifier::external_body]
pub(crate) fn buffer_len(buf: &EcoVec<u64>) -> (n: usize)
    ensures
        n == buffer_items(*buf).len(),
{
    buf.len()
}

/// `EcoVec::as_slice`: the elements as a borrowed slice.
#[verifier::external_body]
pub(crate) fn buffer_as_slice(buf: &EcoVec<u64>) -> (items: &[u64])
    ensures
        items@ == buffer_items(*buf),
{
    buf.as_slice()
}

/// `<EcoVec<u64> as Clone>::clone`: a second handle to the same allocation,
/// made of the same pointer and length. Only the share count, which lives in
/// the allocation, is raised; no element is copied.
#[verifier::external_body]
pub(crate) fn buffer_share(buf: &EcoVec<u64>) -> (other: EcoVec<u64>)
    ensures
        other == *buf,
{
    buf.clone()
}

/// `EcoVec::is_unique`: whether no other handle points to the same
/// allocation. The answer depends on the handles alive elsewhere, not on this
/// one's value, so nothing is claimed about it. The call only reads the share
/// count: it leaves the handle as it was, and cannot panic.
#[verifier::external_body]
pub(crate) fn buffer_is_unique(buf: &mut EcoVec<u64>) -> (unique: bool)
    ensures
        *final(buf) == *old(buf),
    no_unwind
{
    buf.is_unique()
}

/// `EcoVec::make_mut`: the elements as a mutable slice. A shared allocation is
/// copied first, so other handles never see the writes. What the caller
/// leaves in the slice is what the buffer holds afterwards; a slice cannot
/// change its length. The call does not unwind: an exclusive allocation is
/// handed out as it is, and the copy of a shared one asks for room for the
/// elements that the source already holds and clones `u64`s.
#[verifier::external_body]
pub(crate) fn buffer_make_mut(buf: &mut EcoVec<u64>) -> (items: &mut [u64])
    ensures
        items@ == buffer_items(*old(buf)),
        final(items)@.len() == items@.len(),
        buffer_items(*final(buf)) == final(items)@,
    no_unwind
{
    buf.make_mut()
}

/// `<EcoVec<u64> as From<&[u64]>>::from`: a fresh buffer holding a copy of
/// the slice's elements.
#[verifier::external_body]
pub(crate) fn buffer_from_slice(items: &[u64]) -> (buf: EcoVec<u64>)
    ensures
        buffer_items(buf) == items@,
{
    EcoVec::from(items)
}

/// `<EcoVec<u64> as From<Vec<u64>>>::from`: a fresh buffer into which the
/// vector's elements are moved.
#[verifier::external_body]
pub(crate) fn buffer_from_vec(items: Vec<u64>) -> (buf: EcoVec<u64>)
    ensures
        buffer_items(buf) == items@,
{
    EcoVec::from(items)
}

/// `<EcoVec<u64> as From<[u64; N]>>::from`: a fresh buffer into which the
/// array's elements are moved.
#[verifier::external_body]
pub(crate) fn buffer_from_array<const N: usize>(items: [u64; N]) -> (buf: EcoVec<u64>)
    ensures
        buffer_items(buf) == items@,
{
    EcoVec::from(items)
}

/// `<EcoVec<u64> as Extend<u64>>::extend`, fed with a vector: every element of
/// the vector is pushed at the end, in order.
#[verifier::external_body]
pub(crate) fn buffer_extend(buf: &mut EcoVec<u64>, items: Vec<u64>)
    ensures
        buffer_items(*final(buf)) == buffer_items(*old(buf)) + items@,
{
    buf.extend(items)
}

/// `<EcoVec<u64> as IntoIterator>::into_iter`, drained into a vector: the
/// iterator yields every element once, first to last.
#[verifier::external_body]
pub(crate) fn buffer_into_vec(buf: EcoVec<u64>) -> (items: Vec<u64>)
    ensures
        items@ == buffer_items(buf),
{
    buf.into_iter().collect()
}

} // verus!
