//! The byte buffer of the `bytes` crate, as the codecs see it: a sequence of bytes.
use bytes::Buf;
use bytes::BytesMut;
use vstd::prelude::*;

verus! {

#[verifier::external_type_specification]
#[verifier::external_body]
pub struct ExBytesMut(BytesMut);

/// The bytes that a `BytesMut` holds, first to last.
pub uninterp spec fn buffer_contents(b: BytesMut) -> Seq<u8>;

/// `BytesMut::new`: an empty buffer.
#[verifier::external_body]
pub(crate) fn buf_new() -> (r: BytesMut)
    ensures
        buffer_contents(r) == Seq::<u8>::empty(),
{
    BytesMut::new()
}

/// `BytesMut::len`: the number of bytes held.
#[verifier::external_body]
pub(crate) fn buf_len(b: &BytesMut) -> (r: usize)
    ensures
        r == buffer_contents(*b).len(),
{
    b.len()
}

/// Indexing through `Deref<Target = [u8]>`: the byte at position `i`.
#[verifier::external_body]
pub(crate) fn buf_byte(b: &BytesMut, i: usize) -> (r: u8)
    requires
        i < buffer_contents(*b).len(),
    ensures
        r == buffer_contents(*b)[i as int],
{
    b[i]
}

/// `BytesMut::clear`: drops every byte.
#[verifier::external_body]
pub(crate) fn buf_clear(b: &mut BytesMut)
    ensures
        buffer_contents(*final(b)) == Seq::<u8>::empty(),
{
    b.clear()
}

/// `Buf::advance` of `BytesMut`: drops the first `n` bytes (it panics past the end).
#[verifier::external_body]
pub(crate) fn buf_advance(b: &mut BytesMut, n: usize)
    requires
        n <= buffer_contents(*old(b)).len(),
    ensures
        buffer_contents(*final(b)) == buffer_contents(*old(b)).skip(n as int),
{
    b.advance(n)
}

/// `BytesMut::split_to`: hands out the first `at` bytes and keeps the rest
/// (it panics past the end).
#[verifier::external_body]
pub(crate) fn buf_split_to(b: &mut BytesMut, at: usize) -> (r: BytesMut)
    requires
        at <= buffer_contents(*old(b)).len(),
    ensures
        buffer_contents(r) == buffer_contents(*old(b)).take(at as int),
        buffer_contents(*final(b)) == buffer_contents(*old(b)).skip(at as int),
{
    b.split_to(at)
}

/// `BytesMut::reserve`: makes room for `additional` more bytes; the contents stay as they
/// were. It panics when the capacity would overflow, which the bound keeps out.
#[verifier::external_body]
pub(crate) fn buf_reserve(b: &mut BytesMut, additional: usize)
    requires
        buffer_contents(*old(b)).len() + additional <= isize::MAX,
    ensures
        buffer_contents(*final(b)) == buffer_contents(*old(b)),
{
    b.reserve(additional)
}

/// `BytesMut::extend_from_slice`: appends the bytes of `s`. It reserves room first, which
/// panics when the capacity would overflow; the bound keeps that out.
#[verifier::external_body]
pub(crate) fn buf_extend_from_slice(b: &mut BytesMut, s: &[u8])
    requires
        buffer_contents(*old(b)).len() + s@.len() <= isize::MAX,
    ensures
        buffer_contents(*final(b)) == buffer_contents(*old(b)) + s@,
{
    b.extend_from_slice(s)
}

} // verus!
