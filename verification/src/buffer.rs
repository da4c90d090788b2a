//! The byte buffers that bodies are built in and handed out as.
//!
//! `BytesMut` is the growable buffer that encoders append to, `Bytes` the
//! immutable, cheaply shared buffer that a finished body is. Both come from
//! the `bytes` crate by way of `actix_web::web`. Their contents are modelled
//! as a `Seq<u8>`; the functions below are the only places where the buffers
//! themselves are touched, and their contracts are taken on trust.

use actix_web::web::{Bytes, BytesMut};
use vstd::prelude::*;

verus! {

/// `bytes::Bytes`, taken as it is: nothing inside it is looked at.
#[verifier::external_type_specification]
#[verifier::external_body]
pub struct ExBytes(Bytes);

/// `bytes::BytesMut`, taken as it is: nothing inside it is looked at.
#[verifier::external_type_specification]
#[verifier::external_body]
pub struct ExBytesMut(BytesMut);

/// The bytes that an immutable buffer holds, first to last.
pub uninterp spec fn bytes_contents(b: Bytes) -> Seq<u8>;

/// The bytes that a growable buffer holds, first to last.
pub uninterp spec fn buffer_contents(b: BytesMut) -> Seq<u8>;

/// The largest number of bytes a growable buffer can hold: no allocation is
/// larger than `isize::MAX` bytes.
pub open spec fn max_buffer_len() -> int {
    isize::MAX as int
}

/// `BytesMut::with_capacity`: a buffer that holds nothing yet. The capacity
/// is a hint for the allocation and does not show in the contents.
#[verifier::external_body]
pub(crate) fn buffer_with_capacity(capacity: usize) -> (buf: BytesMut)
    requires
        capacity <= max_buffer_len(),
    ensures
        buffer_contents(buf) == Seq::<u8>::empty(),
{
    BytesMut::with_capacity(capacity)
}

/// `BytesMut::len`: the number of bytes held.
#[verifier::external_body]
pub(crate) fn buffer_len(buf: &BytesMut) -> (n: usize)
    ensures
        n == buffer_contents(*buf).len(),
{
    buf.len()
}

/// `BytesMut::extend_from_slice`: the given bytes are appended, and what was
/// there before stays in front of them.
#[verifier::external_body]
pub(crate) fn buffer_extend(buf: &mut BytesMut, data: &[u8])
    requires
        buffer_contents(*old(buf)).len() + data@.len() <= max_buffer_len(),
    ensures
        buffer_contents(*final(buf)) == buffer_contents(*old(buf)) + data@,
{
    buf.extend_from_slice(data)
}

/// `BytesMut::truncate`: the first `len` bytes stay, the rest is dropped; a
/// `len` beyond the end changes nothing.
#[verifier::external_body]
pub(crate) fn buffer_truncate(buf: &mut BytesMut, len: usize)
    ensures
        buffer_contents(*final(buf)) == if len <= buffer_contents(*old(buf)).len() {
            buffer_contents(*old(buf)).subrange(0, len as int)
        } else {
            buffer_contents(*old(buf))
        },
{
    buf.truncate(len)
}

/// `BytesMut::freeze`: the same bytes, from now on immutable.
#[verifier::external_body]
pub(crate) fn buffer_freeze(buf: BytesMut) -> (b: Bytes)
    ensures
        bytes_contents(b) == buffer_contents(buf),
{
    buf.freeze()
}

/// `Bytes::from_static`: a buffer that points at the given bytes without
/// copying them.
#[verifier::external_body]
pub(crate) fn bytes_from_static(data: &'static [u8]) -> (b: Bytes)
    ensures
        bytes_contents(b) == data@,
{
    Bytes::from_static(data)
}

/// `Bytes::as_ref`: the bytes held, as a slice.
#[verifier::external_body]
pub(crate) fn bytes_as_slice(b: &Bytes) -> (s: &[u8])
    ensures
        s@ == bytes_contents(*b),
{
    b.as_ref()
}

} // verus!
