//! Compact byte storage: inline up to a threshold, on the heap above it.
//!
//! The storage is a small vector of the `smallvec` crate. Verus does not look
//! inside it; this module names what it holds and states, for each operation
//! used, what the crate's source shows.
use vstd::prelude::*;
use smallvec::SmallVec;

verus! {

/// The number of bytes that a handle stores without a heap allocation. It is
/// the same for every kind: the storage is one type, and no declaration of a
/// kind changes it.
pub const INLINE_BYTES: usize = 32;

/// The bytes of one identifier, held in a `smallvec::SmallVec<[u8; 32]>`.
#[verifier::external_body]
#[derive(Debug, PartialEq, Eq, PartialOrd, Ord)]
pub struct IdBuf {
    inner: SmallVec<[u8; 32]>,
}

/// The bytes that a buffer holds, in order.
pub uninterp spec fn buf_bytes(buf: IdBuf) -> Seq<u8>;

/// Whether a buffer keeps its bytes in a heap allocation (`SmallVec::spilled`).
pub uninterp spec fn buf_spilled(buf: IdBuf) -> bool;

/// `SmallVec::from_slice`: the new buffer holds a copy of `bytes`. The copy is
/// inline when `bytes` has at most 32 items, and otherwise in a heap allocation
/// made for it.
#[verifier::external_body]
pub(crate) fn buf_from_slice(bytes: &[u8]) -> (buf: IdBuf)
    ensures
        buf_bytes(buf) == bytes@,
        buf_spilled(buf) == (bytes@.len() > INLINE_BYTES),
{
    IdBuf { inner: SmallVec::from_slice(bytes) }
}

/// `SmallVec::from_vec`: the new buffer holds the items of `bytes`. It takes
/// over the vector's allocation where the vector's capacity is above 32, and
/// copies the items inline otherwise; a vector's capacity is not a matter of
/// its items, so nothing is said here of which it is.
#[verifier::external_body]
pub(crate) fn buf_from_vec(bytes: Vec<u8>) -> (buf: IdBuf)
    ensures
        buf_bytes(buf) == bytes@,
{
    IdBuf { inner: SmallVec::from_vec(bytes) }
}

/// `SmallVec::as_slice`: a slice of all the bytes held.
#[verifier::external_body]
pub(crate) fn buf_as_slice(buf: &IdBuf) -> (bytes: &[u8])
    ensures
        bytes@ == buf_bytes(*buf),
{
    buf.inner.as_slice()
}

/// `SmallVec::into_vec`: a vector of all the bytes held.
#[verifier::external_body]
pub(crate) fn buf_into_vec(buf: IdBuf) -> (bytes: Vec<u8>)
    ensures
        bytes@ == buf_bytes(buf),
{
    buf.inner.into_vec()
}

} // verus!
