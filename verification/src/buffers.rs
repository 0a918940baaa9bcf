//! The small inline buffers the creation request is assembled in: the
//! set-layout handle list and the push-constant range list, both kept in a
//! `smallvec::SmallVec`, an inline-first vector. The buffer types hold the
//! outside collection; what each one holds is named here, and every method
//! the assembly calls carries its contract.

use vstd::prelude::*;
use smallvec::SmallVec;

verus! {

/// A buffer of push-constant range entries, each (stage flag word, offset,
/// size), kept in a `smallvec::SmallVec` with room for eight entries
/// inline.
#[verifier::external_body]
pub struct RangeBuffer {
    inner: SmallVec<[(u32, u32, u32); 8]>,
}

/// A buffer of set-layout native handles, kept in a `smallvec::SmallVec`
/// with room for sixteen handles inline.
#[verifier::external_body]
pub struct HandleBuffer {
    inner: SmallVec<[u64; 16]>,
}

/// What a push-constant range buffer holds, front to back.
pub uninterp spec fn pc_range_items(v: RangeBuffer) -> Seq<(u32, u32, u32)>;

/// What a set-layout handle buffer holds, front to back.
pub uninterp spec fn handle_items(v: HandleBuffer) -> Seq<u64>;

impl RangeBuffer {
    /// Relies on smallvec::SmallVec::new: constructs an empty vector.
    #[verifier::external_body]
    pub(crate) fn new() -> (r: RangeBuffer)
        ensures
            pc_range_items(r) == Seq::<(u32, u32, u32)>::empty(),
    {
        RangeBuffer { inner: SmallVec::new() }
    }

    /// Relies on smallvec::SmallVec::push: appends one item at the back.
    #[verifier::external_body]
    pub(crate) fn push(&mut self, entry: (u32, u32, u32))
        ensures
            pc_range_items(*final(self)) == pc_range_items(*old(self)).push(entry),
    {
        self.inner.push(entry)
    }

    /// Relies on smallvec::SmallVec::as_slice: borrows the whole vector,
    /// in order.
    #[verifier::external_body]
    pub(crate) fn as_slice(&self) -> (r: &[(u32, u32, u32)])
        ensures
            r@ == pc_range_items(*self),
    {
        self.inner.as_slice()
    }
}

impl HandleBuffer {
    /// Relies on smallvec::SmallVec::new: constructs an empty vector.
    #[verifier::external_body]
    pub(crate) fn new() -> (r: HandleBuffer)
        ensures
            handle_items(r) == Seq::<u64>::empty(),
    {
        HandleBuffer { inner: SmallVec::new() }
    }

    /// Relies on smallvec::SmallVec::push: appends one item at the back.
    #[verifier::external_body]
    pub(crate) fn push(&mut self, handle: u64)
        ensures
            handle_items(*final(self)) == handle_items(*old(self)).push(handle),
    {
        self.inner.push(handle)
    }

    /// Relies on smallvec::SmallVec::as_slice: borrows the whole vector,
    /// in order.
    #[verifier::external_body]
    pub(crate) fn as_slice(&self) -> (r: &[u64])
        ensures
            r@ == handle_items(*self),
    {
        self.inner.as_slice()
    }
}

} // verus!
