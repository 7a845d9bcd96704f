//! The byte buffers that frames are read from and written to.
//!
//! `bytes::BytesMut` is the growable receive/send buffer and `bytes::Bytes`
//! the frozen, shareable slice that a decoded packet keeps. Both are outside
//! types; their contents are named by `bytes_mut_view` and `bytes_view`, and
//! every operation that the library performs on them goes through one of the
//! trusted wrappers below, whose contracts restate the `bytes` documentation.
use bytes::{Buf, BufMut};
use vstd::prelude::*;

verus! {

/// The growable buffer of the `bytes` crate.
#[verifier::external_type_specification]
#[verifier::external_body]
pub struct ExBytesMut(bytes::BytesMut);

/// The immutable, cheaply cloned buffer of the `bytes` crate.
#[verifier::external_type_specification]
#[verifier::external_body]
pub struct ExBytes(bytes::Bytes);

/// The bytes that a `BytesMut` holds, first readable byte first.
pub uninterp spec fn bytes_mut_view(b: bytes::BytesMut) -> Seq<u8>;

/// The bytes that a `Bytes` holds, in order.
pub uninterp spec fn bytes_view(b: bytes::Bytes) -> Seq<u8>;

/// Big-endian bytes of a 16-bit value (the low 16 bits of `v`).
pub open spec fn u16_be_bytes(v: int) -> Seq<u8> {
    seq![((v / 256) % 256) as u8, (v % 256) as u8]
}

/// Big-endian bytes of a 32-bit value (the low 32 bits of `v`).
pub open spec fn u32_be_bytes(v: int) -> Seq<u8> {
    seq![
        ((v / 16777216) % 256) as u8,
        ((v / 65536) % 256) as u8,
        ((v / 256) % 256) as u8,
        (v % 256) as u8,
    ]
}

/// `BytesMut::len`: the number of bytes held.
#[verifier::external_body]
pub(crate) fn buf_len(b: &bytes::BytesMut) -> (n: usize)
    ensures
        n == bytes_mut_view(*b).len(),
{
    b.len()
}

/// Indexing a `BytesMut` through its slice deref: the byte at `i`; it
/// panics past the end, which `requires` rules out.
#[verifier::external_body]
pub(crate) fn buf_byte(b: &bytes::BytesMut, i: usize) -> (r: u8)
    requires
        i < bytes_mut_view(*b).len(),
    ensures
        r == bytes_mut_view(*b)[i as int],
{
    b[i]
}

/// `Buf::advance` on a `BytesMut`: drops the first `n` bytes; it panics when
/// `n` exceeds the length, which `requires` rules out.
#[verifier::external_body]
pub(crate) fn buf_advance(b: &mut bytes::BytesMut, n: usize)
    requires
        n <= bytes_mut_view(*old(b)).len(),
    ensures
        bytes_mut_view(*final(b)) == bytes_mut_view(*old(b)).skip(n as int),
{
    b.advance(n)
}

/// `Buf::get_u8` on a `BytesMut`: returns the first byte and drops it; it
/// panics on an empty buffer, which `requires` rules out.
#[verifier::external_body]
pub(crate) fn buf_get_u8(b: &mut bytes::BytesMut) -> (r: u8)
    requires
        1 <= bytes_mut_view(*old(b)).len(),
    ensures
        r == bytes_mut_view(*old(b))[0],
        bytes_mut_view(*final(b)) == bytes_mut_view(*old(b)).skip(1),
{
    b.get_u8()
}

/// `Buf::get_u16` on a `BytesMut`: reads the first two bytes as a big-endian
/// integer and drops them; it panics with fewer than two bytes, which
/// `requires` rules out.
#[verifier::external_body]
pub(crate) fn buf_get_u16(b: &mut bytes::BytesMut) -> (r: u16)
    requires
        2 <= bytes_mut_view(*old(b)).len(),
    ensures
        r == bytes_mut_view(*old(b))[0] * 256 + bytes_mut_view(*old(b))[1],
        bytes_mut_view(*final(b)) == bytes_mut_view(*old(b)).skip(2),
{
    b.get_u16()
}

/// `BytesMut::split_to`: returns the first `at` bytes and keeps the rest; it
/// panics when `at` exceeds the length, which `requires` rules out.
#[verifier::external_body]
pub(crate) fn buf_split_to(b: &mut bytes::BytesMut, at: usize) -> (r: bytes::BytesMut)
    requires
        at <= bytes_mut_view(*old(b)).len(),
    ensures
        bytes_mut_view(r) == bytes_mut_view(*old(b)).take(at as int),
        bytes_mut_view(*final(b)) == bytes_mut_view(*old(b)).skip(at as int),
{
    b.split_to(at)
}

/// `BytesMut::freeze`: the same bytes as an immutable `Bytes`.
#[verifier::external_body]
pub(crate) fn buf_freeze(b: bytes::BytesMut) -> (r: bytes::Bytes)
    ensures
        bytes_view(r) == bytes_mut_view(b),
{
    b.freeze()
}

/// `BufMut::put_u8` on a `BytesMut`: appends one byte. Growing past
/// `isize::MAX` bytes panics, which `requires` rules out.
#[verifier::external_body]
pub(crate) fn buf_put_u8(b: &mut bytes::BytesMut, n: u8)
    requires
        bytes_mut_view(*old(b)).len() + 1 <= isize::MAX,
    ensures
        bytes_mut_view(*final(b)) == bytes_mut_view(*old(b)).push(n),
{
    b.put_u8(n)
}

/// `BufMut::put_u16` on a `BytesMut`: appends `n` in big-endian order.
#[verifier::external_body]
pub(crate) fn buf_put_u16(b: &mut bytes::BytesMut, n: u16)
    requires
        bytes_mut_view(*old(b)).len() + 2 <= isize::MAX,
    ensures
        bytes_mut_view(*final(b)) == bytes_mut_view(*old(b)) + u16_be_bytes(n as int),
{
    b.put_u16(n)
}

/// `BufMut::put_u32` on a `BytesMut`: appends `n` in big-endian order.
#[verifier::external_body]
pub(crate) fn buf_put_u32(b: &mut bytes::BytesMut, n: u32)
    requires
        bytes_mut_view(*old(b)).len() + 4 <= isize::MAX,
    ensures
        bytes_mut_view(*final(b)) == bytes_mut_view(*old(b)) + u32_be_bytes(n as int),
{
    b.put_u32(n)
}

/// `BytesMut::extend_from_slice` with the bytes of a `Bytes`: appends them.
#[verifier::external_body]
pub(crate) fn buf_extend(b: &mut bytes::BytesMut, src: &bytes::Bytes)
    requires
        bytes_mut_view(*old(b)).len() + bytes_view(*src).len() <= isize::MAX,
    ensures
        bytes_mut_view(*final(b)) == bytes_mut_view(*old(b)) + bytes_view(*src),
{
    b.extend_from_slice(src)
}

/// `Bytes::new`: an empty buffer.
#[verifier::external_body]
pub(crate) fn bytes_empty() -> (r: bytes::Bytes)
    ensures
        bytes_view(r) == Seq::<u8>::empty(),
{
    bytes::Bytes::new()
}

/// `Bytes::len`: the number of bytes held.
#[verifier::external_body]
pub(crate) fn bytes_len(b: &bytes::Bytes) -> (n: usize)
    ensures
        n == bytes_view(*b).len(),
{
    b.len()
}

/// Indexing a `Bytes` through its slice deref: the byte at `i`; it panics
/// past the end, which `requires` rules out.
#[verifier::external_body]
pub(crate) fn bytes_byte(b: &bytes::Bytes, i: usize) -> (r: u8)
    requires
        i < bytes_view(*b).len(),
    ensures
        r == bytes_view(*b)[i as int],
{
    b[i]
}

/// `Bytes::from(Vec<u8>)`: the same bytes, moved into a `Bytes`.
#[verifier::external_body]
pub(crate) fn bytes_from_vec(v: Vec<u8>) -> (r: bytes::Bytes)
    ensures
        bytes_view(r) == v@,
{
    bytes::Bytes::from(v)
}

} // verus!
