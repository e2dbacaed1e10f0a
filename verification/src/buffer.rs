//! The reassembly byte buffer: a fixed-capacity `heapless::Vec` of at
//! most 64 bytes, the payload bound of one reassembled transfer.
//!
//! The buffer type comes from the `heapless` crate and is opaque here;
//! `buf_bytes` names what it holds, and each operation the engine uses
//! is a trusted wrapper whose contract states, over that name, what the
//! crate's source shows.

use vstd::prelude::*;

verus! {

/// Capacity of a reassembly buffer: one completed transfer payload is
/// at most this long.
pub const BUFFER_CAPACITY: usize = 64;

#[verifier::external_type_specification]
#[verifier::external_body]
#[verifier::reject_recursive_types(T)]
pub struct ExHeaplessVec<T, const N: usize>(heapless::Vec<T, N>);

/// The bytes a buffer holds, in order.
pub uninterp spec fn buf_bytes(v: heapless::Vec<u8, 64>) -> Seq<u8>;

/// Relies on heapless::Vec::new: a new vector is empty.
#[verifier::external_body]
pub(crate) fn buf_new() -> (r: heapless::Vec<u8, 64>)
    ensures
        buf_bytes(r) == Seq::<u8>::empty(),
{
    heapless::Vec::new()
}

/// Relies on heapless::Vec::clear: all contents are removed.
#[verifier::external_body]
pub(crate) fn buf_clear(v: &mut heapless::Vec<u8, 64>)
    ensures
        buf_bytes(*final(v)) == Seq::<u8>::empty(),
{
    v.clear()
}

/// Relies on heapless::Vec::extend_from_slice: when the slice fits the
/// remaining capacity it is appended whole, otherwise nothing changes
/// and an error comes back.
#[verifier::external_body]
pub(crate) fn buf_extend_from_slice(v: &mut heapless::Vec<u8, 64>, other: &[u8]) -> (r: Result<(), ()>)
    ensures
        buf_bytes(*old(v)).len() + other@.len() <= BUFFER_CAPACITY ==> (r is Ok && buf_bytes(
            *final(v),
        ) == buf_bytes(*old(v)) + other@),
        buf_bytes(*old(v)).len() + other@.len() > BUFFER_CAPACITY ==> (r is Err && buf_bytes(
            *final(v),
        ) == buf_bytes(*old(v))),
{
    v.extend_from_slice(other)
}

/// Relies on heapless::Vec::as_slice: a view of exactly the held bytes.
#[verifier::external_body]
pub(crate) fn buf_as_slice(v: &heapless::Vec<u8, 64>) -> (r: &[u8])
    ensures
        r@ == buf_bytes(*v),
{
    v.as_slice()
}

} // verus!
