//! The byte-level vocabulary of the protocol: little-endian integers and
//! zero-terminated byte strings, as functions on sequences of bytes.

use vstd::prelude::*;

use crate::error::PayloadDecodeError;

verus! {

/// The two bytes of `n`, least significant first.
pub open spec fn u16_le(n: u16) -> Seq<u8> {
    seq![(n % 256) as u8, (n / 256) as u8]
}

/// The four bytes of `n`, least significant first.
pub open spec fn u32_le(n: u32) -> Seq<u8> {
    seq![
        (n % 256) as u8,
        ((n / 0x100) % 256) as u8,
        ((n / 0x1_0000) % 256) as u8,
        (n / 0x100_0000) as u8,
    ]
}

/// The eight bytes of `n`, least significant first.
pub open spec fn u64_le(n: u64) -> Seq<u8> {
    u32_le((n % 0x1_0000_0000) as u32) + u32_le((n / 0x1_0000_0000) as u32)
}

/// The 16-bit number at the front of `s`, little-endian.
pub open spec fn u16_from_le(s: Seq<u8>) -> u16 {
    (s[0] as int + 0x100 * (s[1] as int)) as u16
}

/// The 32-bit number at the front of `s`, little-endian.
pub open spec fn u32_from_le(s: Seq<u8>) -> u32 {
    (s[0] as int + 0x100 * (s[1] as int) + 0x1_0000 * (s[2] as int) + 0x100_0000 * (
    s[3] as int)) as u32
}

/// The 64-bit number at the front of `s`, little-endian.
pub open spec fn u64_from_le(s: Seq<u8>) -> u64 {
    (u32_from_le(s) as int + 0x1_0000_0000 * (u32_from_le(s.skip(4)) as int)) as u64
}

/// Reading back the bytes of a 16-bit number gives the number.
pub proof fn lemma_u16_le_round_trip(n: u16)
    ensures
        u16_le(n).len() == 2,
        u16_from_le(u16_le(n)) == n,
{
}

/// Reading back the bytes of a 32-bit number gives the number.
pub proof fn lemma_u32_le_round_trip(n: u32)
    ensures
        u32_le(n).len() == 4,
        u32_from_le(u32_le(n)) == n,
{
}

/// Bytes are free of the terminator: the condition under which a byte string
/// can be written as a zero-terminated field and read back unchanged.
pub open spec fn no_zero(s: Seq<u8>) -> bool {
    forall|i: int| 0 <= i < s.len() ==> s[i] != 0
}

/// `i` is the place of the first zero byte of `s`.
pub open spec fn is_first_zero(s: Seq<u8>, i: int) -> bool {
    &&& 0 <= i < s.len()
    &&& s[i] == 0
    &&& no_zero(s.take(i))
}

/// The place of the first zero byte of `s`, if it has one.
pub open spec fn first_zero(s: Seq<u8>) -> Option<int> {
    if exists|i: int| is_first_zero(s, i) {
        Some(choose|i: int| is_first_zero(s, i))
    } else {
        None
    }
}

/// A sequence has at most one first zero byte, and `first_zero` finds it.
pub proof fn lemma_first_zero_found(s: Seq<u8>, i: int)
    requires
        is_first_zero(s, i),
    ensures
        first_zero(s) == Some(i),
{
    let j = choose|j: int| is_first_zero(s, j);
    if j < i {
        assert(s.take(i)[j] == s[j]);
    } else if i < j {
        assert(s.take(j)[i] == s[i]);
    }
}

/// A sequence without a zero byte has no first zero byte.
pub proof fn lemma_first_zero_absent(s: Seq<u8>)
    requires
        no_zero(s),
    ensures
        first_zero(s) is None,
{
}

/// A byte string as a zero-terminated field: its bytes, then one zero.
pub open spec fn cstr(s: Seq<u8>) -> Seq<u8> {
    s.push(0u8)
}

/// What reading one field off the front of a payload gives: the field's
/// value or the reason why there is none, and the bytes that are left.
/// Where reading fails, nothing is taken.
pub type Taken<T> = (Result<T, PayloadDecodeError>, Seq<u8>);

/// Reads a 16-bit number, low byte first.
pub open spec fn take_u16(s: Seq<u8>) -> Taken<u16> {
    if s.len() < 2 {
        (Err(PayloadDecodeError::ShortField), s)
    } else {
        (Ok(u16_from_le(s)), s.skip(2))
    }
}

/// Reads a 32-bit number, low byte first.
pub open spec fn take_u32(s: Seq<u8>) -> Taken<u32> {
    if s.len() < 4 {
        (Err(PayloadDecodeError::ShortField), s)
    } else {
        (Ok(u32_from_le(s)), s.skip(4))
    }
}

/// Reads a 64-bit number, low byte first.
pub open spec fn take_u64(s: Seq<u8>) -> Taken<u64> {
    if s.len() < 8 {
        (Err(PayloadDecodeError::ShortField), s)
    } else {
        (Ok(u64_from_le(s)), s.skip(8))
    }
}

/// Reads a block of exactly `n` bytes.
pub open spec fn take_bytes(s: Seq<u8>, n: nat) -> Taken<Seq<u8>> {
    if s.len() < n {
        (Err(PayloadDecodeError::ShortField), s)
    } else {
        (Ok(s.take(n as int)), s.skip(n as int))
    }
}

/// Reads a zero-terminated byte string: the bytes before the first zero
/// byte are the value, and the zero byte is passed over.
pub open spec fn take_cstr(s: Seq<u8>) -> Taken<Seq<u8>> {
    match first_zero(s) {
        Some(i) => (Ok(s.take(i)), s.skip(i + 1)),
        None => (Err(PayloadDecodeError::MissingTerminator), s),
    }
}

/// A zero-terminated field written from a string without a zero byte reads
/// back as that string, whatever follows it.
pub proof fn lemma_take_cstr_round_trip(value: Seq<u8>, rest: Seq<u8>)
    requires
        no_zero(value),
    ensures
        take_cstr(cstr(value) + rest) == (Ok::<Seq<u8>, PayloadDecodeError>(value), rest),
{
    let s = cstr(value) + rest;
    let n = value.len() as int;
    assert(s.take(n) =~= value);
    assert(s.skip(n + 1) =~= rest);
    lemma_first_zero_found(s, n);
}

/// Reading back the bytes of a 64-bit number gives the number.
pub proof fn lemma_u64_le_round_trip(n: u64)
    ensures
        u64_le(n).len() == 8,
        u64_from_le(u64_le(n)) == n,
{
    let low = (n % 0x1_0000_0000) as u32;
    let high = (n / 0x1_0000_0000) as u32;
    lemma_u32_le_round_trip(low);
    lemma_u32_le_round_trip(high);
    let s = u64_le(n);
    assert(s.skip(4) =~= u32_le(high));
    assert(s[0] == u32_le(low)[0] && s[1] == u32_le(low)[1] && s[2] == u32_le(low)[2] && s[3]
        == u32_le(low)[3]);
}

/// A 16-bit number that was written is read back, whatever follows it.
pub proof fn lemma_take_u16(n: u16, rest: Seq<u8>)
    ensures
        take_u16(u16_le(n) + rest) == (Ok::<u16, PayloadDecodeError>(n), rest),
{
    lemma_u16_le_round_trip(n);
    let s = u16_le(n) + rest;
    assert(s[0] == u16_le(n)[0] && s[1] == u16_le(n)[1]);
    assert(s.skip(2) =~= rest);
}

/// A 32-bit number that was written is read back, whatever follows it.
pub proof fn lemma_take_u32(n: u32, rest: Seq<u8>)
    ensures
        take_u32(u32_le(n) + rest) == (Ok::<u32, PayloadDecodeError>(n), rest),
{
    lemma_u32_le_round_trip(n);
    let s = u32_le(n) + rest;
    let w = u32_le(n);
    assert(s[0] == w[0] && s[1] == w[1] && s[2] == w[2] && s[3] == w[3]);
    assert(s.skip(4) =~= rest);
}

/// A 64-bit number that was written is read back, whatever follows it.
pub proof fn lemma_take_u64(n: u64, rest: Seq<u8>)
    ensures
        take_u64(u64_le(n) + rest) == (Ok::<u64, PayloadDecodeError>(n), rest),
{
    lemma_u64_le_round_trip(n);
    let s = u64_le(n) + rest;
    let w = u64_le(n);
    assert(s[0] == w[0] && s[1] == w[1] && s[2] == w[2] && s[3] == w[3]);
    assert(s.skip(4)[0] == w.skip(4)[0] && s.skip(4)[1] == w.skip(4)[1] && s.skip(4)[2]
        == w.skip(4)[2] && s.skip(4)[3] == w.skip(4)[3]);
    assert(s.skip(8) =~= rest);
}

/// A block that was written is read back, whatever follows it.
pub proof fn lemma_take_bytes(block: Seq<u8>, rest: Seq<u8>)
    ensures
        take_bytes(block + rest, block.len()) == (Ok::<Seq<u8>, PayloadDecodeError>(block), rest),
{
    let s = block + rest;
    assert(s.take(block.len() as int) =~= block);
    assert(s.skip(block.len() as int) =~= rest);
}

/// The outcome of reading, `r`, holds what the layout says it should.
pub open spec fn agrees<T: View>(
    r: Result<T, PayloadDecodeError>,
    expected: Result<T::V, PayloadDecodeError>,
) -> bool {
    match expected {
        Ok(value) => r is Ok && r->Ok_0@ == value,
        Err(e) => r is Err && r->Err_0 == e,
    }
}

} // verus!
