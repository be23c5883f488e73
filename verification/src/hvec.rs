//! The fixed-capacity byte vectors of the `heapless` crate, as the library uses them.
//!
//! Two capacities occur: a message payload holds at most 255 bytes, and a whole
//! frame on the wire (five framing bytes around the payload) at most 260 bytes.
//! The contents of each are given a name over which the wrappers below state
//! what `heapless` does to them.
use vstd::prelude::*;

verus! {

/// `heapless::Vec` is opaque here: its contents are reached through the names
/// [`payload_bytes`] and [`frame_bytes`].
#[verifier::external_type_specification]
#[verifier::external_body]
#[verifier::reject_recursive_types(T)]
pub struct ExHeaplessVec<T, const N: usize>(heapless::Vec<T, N>);

/// The bytes held by a payload vector, first to last.
pub uninterp spec fn payload_bytes(v: heapless::Vec<u8, 255>) -> Seq<u8>;

/// The bytes held by a frame vector, first to last.
pub uninterp spec fn frame_bytes(v: heapless::Vec<u8, 260>) -> Seq<u8>;

/// `heapless::Vec::<u8, 255>::new`: an empty vector.
#[verifier::external_body]
pub(crate) fn payload_new() -> (r: heapless::Vec<u8, 255>)
    ensures
        payload_bytes(r) == Seq::<u8>::empty(),
{
    heapless::Vec::new()
}

/// `heapless::Vec::<u8, 255>::push`: appends the byte when fewer than 255 are held,
/// otherwise leaves the vector as it was and hands the byte back.
#[verifier::external_body]
pub(crate) fn payload_push(v: &mut heapless::Vec<u8, 255>, b: u8) -> (r: Result<(), u8>)
    ensures
        payload_bytes(*old(v)).len() < 255 ==> r is Ok && payload_bytes(*final(v))
            == payload_bytes(*old(v)).push(b),
        payload_bytes(*old(v)).len() >= 255 ==> (r matches Err(e) && e == b),
        payload_bytes(*old(v)).len() >= 255 ==> payload_bytes(*final(v)) == payload_bytes(*old(v)),
{
    v.push(b)
}

/// `len` of a `heapless::Vec<u8, 255>` (through its slice): the number of bytes held,
/// which never exceeds the capacity.
#[verifier::external_body]
pub(crate) fn payload_len(v: &heapless::Vec<u8, 255>) -> (r: usize)
    ensures
        r == payload_bytes(*v).len(),
        r <= 255,
{
    v.len()
}

/// `Clone::clone` of a `heapless::Vec<u8, 255>`: a vector holding the same bytes.
#[verifier::external_body]
pub(crate) fn payload_clone(v: &heapless::Vec<u8, 255>) -> (r: heapless::Vec<u8, 255>)
    ensures
        payload_bytes(r) == payload_bytes(*v),
{
    v.clone()
}

/// `heapless::Vec::<u8, 255>::as_slice`: the bytes held, as a slice.
#[verifier::external_body]
pub(crate) fn payload_as_slice(v: &heapless::Vec<u8, 255>) -> (r: &[u8])
    ensures
        r@ == payload_bytes(*v),
{
    v.as_slice()
}

/// `heapless::Vec::<u8, 260>::new`: an empty vector.
#[verifier::external_body]
pub(crate) fn frame_new() -> (r: heapless::Vec<u8, 260>)
    ensures
        frame_bytes(r) == Seq::<u8>::empty(),
{
    heapless::Vec::new()
}

/// `heapless::Vec::<u8, 260>::push`: appends the byte when fewer than 260 are held,
/// otherwise leaves the vector as it was and hands the byte back.
#[verifier::external_body]
pub(crate) fn frame_push(v: &mut heapless::Vec<u8, 260>, b: u8) -> (r: Result<(), u8>)
    ensures
        frame_bytes(*old(v)).len() < 260 ==> r is Ok && frame_bytes(*final(v)) == frame_bytes(
            *old(v),
        ).push(b),
        frame_bytes(*old(v)).len() >= 260 ==> (r matches Err(e) && e == b),
        frame_bytes(*old(v)).len() >= 260 ==> frame_bytes(*final(v)) == frame_bytes(*old(v)),
{
    v.push(b)
}

/// `len` of a `heapless::Vec<u8, 260>` (through its slice): the number of bytes held,
/// which never exceeds the capacity.
#[verifier::external_body]
pub(crate) fn frame_len(v: &heapless::Vec<u8, 260>) -> (r: usize)
    ensures
        r == frame_bytes(*v).len(),
        r <= 260,
{
    v.len()
}

/// `heapless::Vec::<u8, 260>::as_slice`: the bytes held, as a slice.
#[verifier::external_body]
pub(crate) fn frame_as_slice(v: &heapless::Vec<u8, 260>) -> (r: &[u8])
    ensures
        r@ == frame_bytes(*v),
{
    v.as_slice()
}

} // verus!
