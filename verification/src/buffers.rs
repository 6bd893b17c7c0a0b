//! Byte buffers of the `bytes` crate, with their contents named so that
//! contracts can speak of them.
use vstd::prelude::*;

use bytes::{Buf, BufMut, Bytes, BytesMut};

verus! {

/// `bytes::Bytes`, an immutable byte buffer
#[verifier::external_type_specification]
#[verifier::external_body]
pub struct ExBytes(Bytes);

/// `bytes::BytesMut`, a growable byte buffer
#[verifier::external_type_specification]
#[verifier::external_body]
pub struct ExBytesMut(BytesMut);

/// The bytes that a `Bytes` holds, in order
pub uninterp spec fn bytes_view(b: Bytes) -> Seq<u8>;

/// The bytes that a `BytesMut` holds, in order
pub uninterp spec fn bytes_mut_view(b: BytesMut) -> Seq<u8>;

/// `Bytes::copy_from_slice`: a new buffer holding a copy of `s`
#[verifier::external_body]
pub(crate) fn bytes_copy_from_slice(s: &[u8]) -> (b: Bytes)
    ensures
        bytes_view(b) == s@,
{
    Bytes::copy_from_slice(s)
}

/// `<Bytes as AsRef<[u8]>>::as_ref`: the contents of the buffer
#[verifier::external_body]
pub(crate) fn bytes_as_slice(b: &Bytes) -> (s: &[u8])
    ensures
        s@ == bytes_view(*b),
{
    b.as_ref()
}

/// `BytesMut::with_capacity`: a new, empty buffer
#[verifier::external_body]
pub(crate) fn bytes_mut_with_capacity(capacity: usize) -> (b: BytesMut)
    ensures
        bytes_mut_view(b) == Seq::<u8>::empty(),
{
    BytesMut::with_capacity(capacity)
}

/// `<BytesMut as AsRef<[u8]>>::as_ref`: the contents of the buffer
#[verifier::external_body]
pub(crate) fn bytes_mut_as_slice(b: &BytesMut) -> (s: &[u8])
    ensures
        s@ == bytes_mut_view(*b),
{
    b.as_ref()
}

/// `BytesMut::extend_from_slice`: appends `s` to the buffer
#[verifier::external_body]
pub(crate) fn bytes_mut_extend(b: &mut BytesMut, s: &[u8])
    ensures
        bytes_mut_view(*final(b)) == bytes_mut_view(*old(b)) + s@,
{
    b.extend_from_slice(s)
}

/// `BufMut::put_u16` on a `BytesMut`: appends `v` in big-endian order
#[verifier::external_body]
pub(crate) fn bytes_mut_put_u16(b: &mut BytesMut, v: u16)
    ensures
        bytes_mut_view(*final(b)) == bytes_mut_view(*old(b)) + seq![(v / 256) as u8, (v % 256) as u8],
{
    b.put_u16(v)
}

/// `BytesMut::reserve`: makes room for more bytes; the contents do not
/// change
#[verifier::external_body]
pub(crate) fn bytes_mut_reserve(b: &mut BytesMut, additional: usize)
    ensures
        bytes_mut_view(*final(b)) == bytes_mut_view(*old(b)),
{
    b.reserve(additional)
}

/// `Buf::advance` on a `BytesMut`: drops the first `n` bytes. It panics
/// when `n` exceeds the length, which `requires` rules out.
#[verifier::external_body]
pub(crate) fn bytes_mut_advance(b: &mut BytesMut, n: usize)
    requires
        n <= bytes_mut_view(*old(b)).len(),
    ensures
        bytes_mut_view(*final(b)) == bytes_mut_view(*old(b)).skip(n as int),
{
    b.advance(n)
}

/// `BytesMut::split_to`: removes the first `n` bytes and returns them.
/// It panics when `n` exceeds the length, which `requires` rules out.
#[verifier::external_body]
pub(crate) fn bytes_mut_split_to(b: &mut BytesMut, n: usize) -> (front: BytesMut)
    requires
        n <= bytes_mut_view(*old(b)).len(),
    ensures
        bytes_mut_view(front) == bytes_mut_view(*old(b)).take(n as int),
        bytes_mut_view(*final(b)) == bytes_mut_view(*old(b)).skip(n as int),
{
    b.split_to(n)
}

} // verus!
