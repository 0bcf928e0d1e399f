//! The mip-level container of a texture descriptor.
//!
//! Texture levels are held in a `smallvec::SmallVec` inlining the common
//! single-level case.  The container is opaque here; its contents are named by
//! `levels_seq` and reached through the wrappers below.

use vstd::prelude::*;

verus! {

/// An ordered sequence of raw byte buffers, one per mip level.
#[verifier::external_body]
pub struct TextureLevels {
    inner: smallvec::SmallVec<[Vec<u8>; 1]>,
}

pub uninterp spec fn levels_seq(v: TextureLevels) -> Seq<Seq<u8>>;

impl TextureLevels {
    /// Relies on smallvec's `SmallVec::from_buf`: a vector holding exactly the
    /// elements of the given array, in order.
    #[verifier::external_body]
    pub(crate) fn single(data: Vec<u8>) -> (r: TextureLevels)
        ensures
            levels_seq(r) =~= seq![data@],
    {
        TextureLevels { inner: smallvec::SmallVec::from_buf([data]) }
    }

    /// Relies on smallvec's `SmallVec::len`: the number of elements held.
    #[verifier::external_body]
    pub(crate) fn len(&self) -> (r: usize)
        ensures
            r == levels_seq(*self).len(),
    {
        self.inner.len()
    }

    /// Relies on indexing into smallvec's `SmallVec` (its `Deref` to a
    /// slice): the element at the given position.
    #[verifier::external_body]
    pub(crate) fn get(&self, i: usize) -> (r: &Vec<u8>)
        requires
            i < levels_seq(*self).len(),
        ensures
            r@ == levels_seq(*self)[i as int],
    {
        &self.inner[i]
    }
}

} // verus!
