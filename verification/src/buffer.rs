//! The fixed-capacity byte buffer that backs the pending-request accumulator.
//!
//! The buffer is a `heapless::Vec<u8, 8192>`: a stack-allocated vector whose
//! capacity is fixed at compile time, matching the largest request the
//! pipeline ever accepts.  Its contents are named by the uninterpreted
//! function [`buf_bytes`]; the wrappers below state what each `heapless`
//! operation does to that name, and everything else about the buffer is
//! proved from those contracts.

use vstd::prelude::*;

verus! {

/// The compile-time capacity of the accumulator's data buffer, in bytes.
pub const DATA_CAPACITY: usize = 8192;

#[verifier::external_type_specification]
#[verifier::external_body]
#[verifier::reject_recursive_types(T)]
pub struct ExHeaplessVec<T, const N: usize>(heapless::Vec<T, N>);

/// The bytes held by a data buffer, in order.
pub uninterp spec fn buf_bytes(v: heapless::Vec<u8, 8192>) -> Seq<u8>;

/// Relies on `heapless::Vec::new`: a newly constructed vector is empty.
#[verifier::external_body]
pub(crate) fn buf_new() -> (r: heapless::Vec<u8, 8192>)
    ensures
        buf_bytes(r) == Seq::<u8>::empty(),
{
    heapless::Vec::new()
}

/// Relies on `heapless::Vec::len` (through its slice view): the number of
/// elements currently held.
#[verifier::external_body]
pub(crate) fn buf_len(v: &heapless::Vec<u8, 8192>) -> (r: usize)
    ensures
        r == buf_bytes(*v).len(),
{
    v.len()
}

/// Relies on `heapless::Vec::extend_from_slice`: when the combined length
/// fits the capacity it appends a copy of every byte of `other` in order and
/// returns `Ok`; otherwise it modifies nothing and returns `Err`.
#[verifier::external_body]
pub(crate) fn buf_extend(v: &mut heapless::Vec<u8, 8192>, other: &[u8]) -> (r: Result<(), ()>)
    ensures
        buf_bytes(*old(v)).len() + other@.len() <= 8192 ==> r is Ok
            && buf_bytes(*final(v)) == buf_bytes(*old(v)) + other@,
        buf_bytes(*old(v)).len() + other@.len() > 8192 ==> r is Err
            && buf_bytes(*final(v)) == buf_bytes(*old(v)),
{
    v.extend_from_slice(other)
}

/// Relies on `heapless::Vec::clear`: it removes every element.
#[verifier::external_body]
pub(crate) fn buf_clear(v: &mut heapless::Vec<u8, 8192>)
    ensures
        buf_bytes(*final(v)) == Seq::<u8>::empty(),
{
    v.clear()
}

/// Relies on `heapless::Vec::as_slice`: the vector's bytes in order, copied
/// out into an ordinary vector.
#[verifier::external_body]
pub(crate) fn buf_to_vec(v: &heapless::Vec<u8, 8192>) -> (r: Vec<u8>)
    ensures
        r@ == buf_bytes(*v),
{
    v.as_slice().to_vec()
}

} // verus!
