//! The send and receive buffers.
//!
//! Each half-connection owns one `bytes::BytesMut`: a growable, contiguous
//! byte accumulator that supports appending at the back, reading without
//! consuming, and discarding from the front without shrinking its backing
//! storage. Verus sees the type as opaque; its contents are named by
//! `buf_view`, and every operation the framing logic needs goes through a
//! wrapper whose contract is stated over that name.

use vstd::prelude::*;

use crate::frame::FRAME_END;

verus! {

#[verifier::external_type_specification]
#[verifier::external_body]
pub struct ExBytesMut(bytes::BytesMut);

/// The bytes a buffer currently holds, front to back.
pub uninterp spec fn buf_view(b: bytes::BytesMut) -> Seq<u8>;

/// Relies on bytes::BytesMut::with_capacity: the returned buffer is empty
/// (the capacity is only preallocated room).
#[verifier::external_body]
pub(crate) fn buf_with_capacity(capacity: usize) -> (b: bytes::BytesMut)
    ensures
        buf_view(b) == Seq::<u8>::empty(),
{
    bytes::BytesMut::with_capacity(capacity)
}

/// Relies on bytes::BytesMut::len: the number of bytes held.
#[verifier::external_body]
pub(crate) fn buf_len(b: &bytes::BytesMut) -> (n: usize)
    ensures
        n == buf_view(*b).len(),
{
    b.len()
}

/// Relies on bytes::BytesMut::extend_from_slice: appends a copy of the
/// slice at the back, keeping the bytes already held.
#[verifier::external_body]
pub(crate) fn buf_extend(b: &mut bytes::BytesMut, s: &[u8])
    ensures
        buf_view(*final(b)) == buf_view(*old(b)) + s@,
{
    b.extend_from_slice(s);
}

/// Relies on bytes::Buf::advance for BytesMut: discards `n` bytes from the
/// front and keeps the rest (it panics past the end, so `n` is bounded here).
#[verifier::external_body]
pub(crate) fn buf_advance(b: &mut bytes::BytesMut, n: usize)
    requires
        n <= buf_view(*old(b)).len(),
    ensures
        buf_view(*final(b)) == buf_view(*old(b)).skip(n as int),
{
    bytes::Buf::advance(b, n);
}

/// Relies on BytesMut's DerefMut to `[u8]`: overwrites the byte at index
/// `i` in place, leaving every other byte as it was.
#[verifier::external_body]
pub(crate) fn buf_set(b: &mut bytes::BytesMut, i: usize, v: u8)
    requires
        i < buf_view(*old(b)).len(),
    ensures
        buf_view(*final(b)) == buf_view(*old(b)).update(i as int, v),
{
    b[i] = v;
}

/// Relies on BytesMut's Deref to `[u8]`: a read-only view of all bytes held.
#[verifier::external_body]
pub(crate) fn buf_slice(b: &bytes::BytesMut) -> (s: &[u8])
    ensures
        s@ == buf_view(*b),
{
    &b[..]
}

/// Relies on amqp_serde::to_buffer: its serializer writes a `u8` as exactly
/// that one byte (`serialize_u8` appends the byte), and cannot fail on one.
#[verifier::external_body]
pub(crate) fn buf_append_end_marker(b: &mut bytes::BytesMut)
    ensures
        buf_view(*final(b)) == buf_view(*old(b)).push(FRAME_END),
{
    let _ = amqp_serde::to_buffer(&FRAME_END, b);
}

} // verus!
