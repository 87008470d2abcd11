//! Reading the fields of a payload off the front of a buffer, each with a
//! check that the bytes it needs are there.

use bytes::BytesMut;
use vstd::prelude::*;
use vstd::slice::slice_subrange;
use vstd::slice::slice_to_vec;

use crate::buffer::buf_advance;
use crate::buffer::buf_as_slice;
use crate::buffer::buf_bytes;
use crate::buffer::buf_len;
use crate::buffer::le_read_u16;
use crate::buffer::le_read_u32;
use crate::buffer::le_read_u64;
use crate::error::PayloadDecodeError;
use crate::wire::first_zero;
use crate::wire::is_first_zero;
use crate::wire::lemma_first_zero_absent;
use crate::wire::lemma_first_zero_found;
use crate::wire::no_zero;
use crate::wire::take_bytes;
use crate::wire::take_cstr;
use crate::wire::take_u16;
use crate::wire::take_u32;
use crate::wire::take_u64;

verus! {

/// Reads a 16-bit number, low byte first, and passes over its two bytes.
pub fn read_u16(buf: &mut BytesMut) -> (r: Result<u16, PayloadDecodeError>)
    ensures
        (r, buf_bytes(*final(buf))) == take_u16(buf_bytes(*old(buf))),
{
    if buf_len(buf) < 2 {
        return Err(PayloadDecodeError::ShortField);
    }
    let n: u16 = le_read_u16(buf_as_slice(buf));
    buf_advance(buf, 2);
    Ok(n)
}

/// Reads a 32-bit number, low byte first, and passes over its four bytes.
pub fn read_u32(buf: &mut BytesMut) -> (r: Result<u32, PayloadDecodeError>)
    ensures
        (r, buf_bytes(*final(buf))) == take_u32(buf_bytes(*old(buf))),
{
    if buf_len(buf) < 4 {
        return Err(PayloadDecodeError::ShortField);
    }
    let n: u32 = le_read_u32(buf_as_slice(buf));
    buf_advance(buf, 4);
    Ok(n)
}

/// Reads a 64-bit number, low byte first, and passes over its eight bytes.
pub fn read_u64(buf: &mut BytesMut) -> (r: Result<u64, PayloadDecodeError>)
    ensures
        (r, buf_bytes(*final(buf))) == take_u64(buf_bytes(*old(buf))),
{
    if buf_len(buf) < 8 {
        return Err(PayloadDecodeError::ShortField);
    }
    let n: u64 = le_read_u64(buf_as_slice(buf));
    buf_advance(buf, 8);
    Ok(n)
}

/// Passes over `n` bytes whose value does not matter.
pub fn skip_bytes(buf: &mut BytesMut, n: usize) -> (r: Result<(), PayloadDecodeError>)
    ensures
        r is Ok <==> take_bytes(buf_bytes(*old(buf)), n as nat).0 is Ok,
        r is Err ==> r == Err::<(), PayloadDecodeError>(PayloadDecodeError::ShortField),
        buf_bytes(*final(buf)) == take_bytes(buf_bytes(*old(buf)), n as nat).1,
{
    if buf_len(buf) < n {
        return Err(PayloadDecodeError::ShortField);
    }
    buf_advance(buf, n);
    Ok(())
}

/// Reads a block of exactly `N` bytes.
pub fn read_array<const N: usize>(buf: &mut BytesMut) -> (r: Result<[u8; N], PayloadDecodeError>)
    ensures
        match take_bytes(buf_bytes(*old(buf)), N as nat).0 {
            Ok(block) => r is Ok && r->Ok_0@ == block,
            Err(e) => r == Err::<[u8; N], PayloadDecodeError>(e),
        },
        buf_bytes(*final(buf)) == take_bytes(buf_bytes(*old(buf)), N as nat).1,
{
    if buf_len(buf) < N {
        return Err(PayloadDecodeError::ShortField);
    }
    let mut block: [u8; N] = [0u8; N];
    let src = buf_as_slice(buf);
    let mut i: usize = 0;
    while i < N
        invariant
            i <= N,
            N <= src@.len(),
            src@ == buf_bytes(*buf),
            forall|j: int| 0 <= j < i ==> block@[j] == src@[j],
        decreases N - i,
    {
        block[i] = src[i];
        i = i + 1;
    }
    assert(block@ =~= src@.take(N as int));
    buf_advance(buf, N);
    Ok(block)
}

/// The place of the first zero byte of `s`, if it has one.
pub fn find_zero(s: &[u8]) -> (r: Option<usize>)
    ensures
        match r {
            Some(i) => is_first_zero(s@, i as int),
            None => no_zero(s@),
        },
        first_zero(s@) == match r {
            Some(i) => Some(i as int),
            None => None,
        },
{
    let mut i: usize = 0;
    while i < s.len()
        invariant
            i <= s@.len(),
            no_zero(s@.take(i as int)),
        decreases s@.len() - i,
    {
        if s[i] == 0 {
            proof {
                lemma_first_zero_found(s@, i as int);
            }
            return Some(i);
        }
        assert(s@.take(i + 1) =~= s@.take(i as int).push(s@[i as int]));
        i = i + 1;
    }
    proof {
        assert(s@.take(i as int) =~= s@);
        lemma_first_zero_absent(s@);
    }
    None
}

/// Reads a zero-terminated byte string: the bytes before the first zero
/// byte are the value, and the zero byte is passed over.
pub fn read_cstring(buf: &mut BytesMut) -> (r: Result<Vec<u8>, PayloadDecodeError>)
    ensures
        match take_cstr(buf_bytes(*old(buf))).0 {
            Ok(value) => r is Ok && r->Ok_0@ == value,
            Err(e) => r == Err::<Vec<u8>, PayloadDecodeError>(e),
        },
        buf_bytes(*final(buf)) == take_cstr(buf_bytes(*old(buf))).1,
{
    let src = buf_as_slice(buf);
    let len: usize = src.len();
    match find_zero(src) {
        None => Err(PayloadDecodeError::MissingTerminator),
        Some(null_pos) => {
            assert(null_pos < len);
            let value = slice_to_vec(slice_subrange(src, 0, null_pos));
            buf_advance(buf, null_pos + 1);
            Ok(value)
        },
    }
}

} // verus!
