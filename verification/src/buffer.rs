//! The byte buffers of the `bytes` crate and the integer conversions of the
//! `byteorder` crate, as the rest of the library sees them.
//!
//! Nothing in this file is proved. Each function below makes one call into
//! one of the two crates, and its contract records what that crate documents
//! of the call.

use byteorder::ByteOrder;
use byteorder::LittleEndian;
use bytes::BufMut;
use bytes::Bytes;
use bytes::BytesMut;
use vstd::prelude::*;

use crate::wire::u16_from_le;
use crate::wire::u16_le;
use crate::wire::u32_from_le;
use crate::wire::u32_le;
use crate::wire::u64_from_le;

verus! {

/// `bytes::BytesMut`, a growable buffer of bytes that is read from its front
/// and written at its back.
#[verifier::external_type_specification]
#[verifier::external_body]
pub struct ExBytesMut(bytes::BytesMut);

/// `bytes::Bytes`, a buffer of bytes that is no longer written.
#[verifier::external_type_specification]
#[verifier::external_body]
pub struct ExBytes(bytes::Bytes);

/// The bytes that a `BytesMut` holds, front first: what `&buf[..]` shows.
pub uninterp spec fn buf_bytes(buf: BytesMut) -> Seq<u8>;

/// The length up to which a `BytesMut` takes writes at its back without
/// growing. The buffer was made to hold at least this many bytes, and a
/// write of `BufMut` that keeps the length within it does not fail.
pub uninterp spec fn buf_limit(buf: BytesMut) -> nat;

/// The bytes that a `Bytes` holds, front first: what `&data[..]` shows.
pub uninterp spec fn data_bytes(data: Bytes) -> Seq<u8>;

/// `BytesMut::with_capacity`: an empty buffer that can hold at least
/// `capacity` bytes without reallocating.
#[verifier::external_body]
pub(crate) fn buf_with_capacity(capacity: usize) -> (buf: BytesMut)
    requires
        capacity <= isize::MAX,
    ensures
        buf_bytes(buf) == Seq::<u8>::empty(),
        buf_limit(buf) >= capacity,
{
    BytesMut::with_capacity(capacity)
}

/// `BytesMut::len`: the number of bytes held.
#[verifier::external_body]
pub(crate) fn buf_len(buf: &BytesMut) -> (n: usize)
    ensures
        n == buf_bytes(*buf).len(),
{
    buf.len()
}

/// `BufMut::put_u8` on a `BytesMut`: appends one byte. The crate panics
/// where no capacity is left, which the precondition excludes.
#[verifier::external_body]
pub(crate) fn buf_put_u8(buf: &mut BytesMut, n: u8)
    requires
        buf_bytes(*old(buf)).len() + 1 <= buf_limit(*old(buf)),
    ensures
        buf_bytes(*final(buf)) == buf_bytes(*old(buf)).push(n),
        buf_limit(*final(buf)) == buf_limit(*old(buf)),
{
    buf.put_u8(n)
}

/// `BufMut::put_u16_le` on a `BytesMut`: appends the two bytes of `n`, least
/// significant first. Panics in the crate without two bytes of capacity left.
#[verifier::external_body]
pub(crate) fn buf_put_u16_le(buf: &mut BytesMut, n: u16)
    requires
        buf_bytes(*old(buf)).len() + 2 <= buf_limit(*old(buf)),
    ensures
        buf_bytes(*final(buf)) == buf_bytes(*old(buf)) + u16_le(n),
        buf_limit(*final(buf)) == buf_limit(*old(buf)),
{
    buf.put_u16_le(n)
}

/// `BufMut::put_u32_le` on a `BytesMut`: appends the four bytes of `n`, least
/// significant first. Panics in the crate without four bytes of capacity
/// left.
#[verifier::external_body]
pub(crate) fn buf_put_u32_le(buf: &mut BytesMut, n: u32)
    requires
        buf_bytes(*old(buf)).len() + 4 <= buf_limit(*old(buf)),
    ensures
        buf_bytes(*final(buf)) == buf_bytes(*old(buf)) + u32_le(n),
        buf_limit(*final(buf)) == buf_limit(*old(buf)),
{
    buf.put_u32_le(n)
}

/// `BufMut::put_slice` on a `BytesMut`: appends the bytes of `src`. Panics in
/// the crate where the capacity left is less than `src.len()`.
#[verifier::external_body]
pub(crate) fn buf_put_slice(buf: &mut BytesMut, src: &[u8])
    requires
        buf_bytes(*old(buf)).len() + src@.len() <= buf_limit(*old(buf)),
    ensures
        buf_bytes(*final(buf)) == buf_bytes(*old(buf)) + src@,
        buf_limit(*final(buf)) == buf_limit(*old(buf)),
{
    buf.put_slice(src)
}

/// `BytesMut::extend_from_slice`: appends the bytes of `src`, growing the
/// buffer first where it must.
#[verifier::external_body]
pub(crate) fn buf_extend_from_slice(buf: &mut BytesMut, src: &[u8])
    requires
        buf_bytes(*old(buf)).len() + src@.len() <= isize::MAX,
    ensures
        buf_bytes(*final(buf)) == buf_bytes(*old(buf)) + src@,
{
    buf.extend_from_slice(src)
}

/// `IndexMut` of `BytesMut`, through its slice: writes `value` over the
/// byte at `index`. Panics in the crate where `index` is not below the
/// length.
#[verifier::external_body]
pub(crate) fn buf_set(buf: &mut BytesMut, index: usize, value: u8)
    requires
        index < buf_bytes(*old(buf)).len(),
    ensures
        buf_bytes(*final(buf)) == buf_bytes(*old(buf)).update(index as int, value),
        buf_limit(*final(buf)) == buf_limit(*old(buf)),
{
    buf[index] = value
}

/// `BytesMut::freeze`: the same bytes, from now on read-only.
#[verifier::external_body]
pub(crate) fn buf_freeze(buf: BytesMut) -> (data: Bytes)
    ensures
        data_bytes(data) == buf_bytes(buf),
{
    buf.freeze()
}

/// `AsRef<[u8]>` of `BytesMut`: the bytes held, as a slice.
#[verifier::external_body]
pub(crate) fn buf_as_slice(buf: &BytesMut) -> (s: &[u8])
    ensures
        s@ == buf_bytes(*buf),
{
    buf.as_ref()
}

/// `AsRef<[u8]>` of `Bytes`: the bytes held, as a slice.
#[verifier::external_body]
pub(crate) fn data_as_slice(data: &Bytes) -> (s: &[u8])
    ensures
        s@ == data_bytes(*data),
{
    data.as_ref()
}

/// `BytesMut::advance`: drops the first `cnt` bytes and keeps the rest.
/// Panics in the crate where `cnt` is more than the length.
#[verifier::external_body]
pub(crate) fn buf_advance(buf: &mut BytesMut, cnt: usize)
    requires
        cnt <= buf_bytes(*old(buf)).len(),
    ensures
        buf_bytes(*final(buf)) == buf_bytes(*old(buf)).skip(cnt as int),
{
    buf.advance(cnt)
}

/// `BytesMut::split_to`: takes the first `at` bytes out as a buffer of their
/// own and keeps the rest. Panics in the crate where `at` is more than the
/// length.
#[verifier::external_body]
pub(crate) fn buf_split_to(buf: &mut BytesMut, at: usize) -> (head: BytesMut)
    requires
        at <= buf_bytes(*old(buf)).len(),
    ensures
        buf_bytes(head) == buf_bytes(*old(buf)).take(at as int),
        buf_bytes(*final(buf)) == buf_bytes(*old(buf)).skip(at as int),
{
    buf.split_to(at)
}

/// `LittleEndian::read_u16`: the 16-bit number in the first two bytes of
/// `src`, least significant first. Panics in the crate on fewer than two
/// bytes.
#[verifier::external_body]
pub(crate) fn le_read_u16(src: &[u8]) -> (n: u16)
    requires
        src@.len() >= 2,
    ensures
        n == u16_from_le(src@),
{
    LittleEndian::read_u16(src)
}

/// `LittleEndian::read_u32`: the 32-bit number in the first four bytes of
/// `src`, least significant first. Panics in the crate on fewer than four
/// bytes.
#[verifier::external_body]
pub(crate) fn le_read_u32(src: &[u8]) -> (n: u32)
    requires
        src@.len() >= 4,
    ensures
        n == u32_from_le(src@),
{
    LittleEndian::read_u32(src)
}

/// `LittleEndian::read_u64`: the 64-bit number in the first eight bytes of
/// `src`, least significant first. Panics in the crate on fewer than eight
/// bytes.
#[verifier::external_body]
pub(crate) fn le_read_u64(src: &[u8]) -> (n: u64)
    requires
        src@.len() >= 8,
    ensures
        n == u64_from_le(src@),
{
    LittleEndian::read_u64(src)
}

} // verus!
