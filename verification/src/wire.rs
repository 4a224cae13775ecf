//! Big-endian numbers and NUL-terminated strings, read from a slice or taken
//! from the front of a cursor.

use crate::error::Error;
use crate::error::ErrorView;
use crate::error::outcome;
use crate::text::bytes_to_string;
use crate::text::text_of;
use vstd::prelude::*;

verus! {

/// The unsigned number that the first two bytes of `b` spell, most
/// significant byte first.
pub open spec fn be_u16(b: Seq<u8>) -> int {
    b[0] as int * 0x100 + b[1] as int
}

/// The unsigned number that the first four bytes of `b` spell, most
/// significant byte first.
pub open spec fn be_u32(b: Seq<u8>) -> int {
    b[0] as int * 0x100_0000 + b[1] as int * 0x1_0000 + b[2] as int * 0x100 + b[3] as int
}

/// The unsigned number that the first eight bytes of `b` spell, most
/// significant byte first.
pub open spec fn be_u64(b: Seq<u8>) -> int {
    be_u32(b) * 0x1_0000_0000 + be_u32(b.skip(4))
}

/// A 16-bit pattern read as a two's-complement number.
pub open spec fn signed16(u: int) -> int {
    if u < 0x8000 {
        u
    } else {
        u - 0x1_0000
    }
}

/// A 32-bit pattern read as a two's-complement number.
pub open spec fn signed32(u: int) -> int {
    if u < 0x8000_0000 {
        u
    } else {
        u - 0x1_0000_0000
    }
}

/// A 64-bit pattern read as a two's-complement number.
pub open spec fn signed64(u: int) -> int {
    if u < 0x8000_0000_0000_0000 {
        u
    } else {
        u - 0x1_0000_0000_0000_0000
    }
}

/// The two's-complement pattern of a signed 64-bit number.
pub open spec fn unsigned64(i: int) -> int {
    if i < 0 {
        i + 0x1_0000_0000_0000_0000
    } else {
        i
    }
}

/// The four bytes that spell `v`, most significant first.
pub open spec fn be_bytes_u32(v: int) -> Seq<u8> {
    seq![
        (v / 0x100_0000) as u8,
        (v / 0x1_0000 % 0x100) as u8,
        (v / 0x100 % 0x100) as u8,
        (v % 0x100) as u8,
    ]
}

/// The eight bytes that spell `v`, most significant first.
pub open spec fn be_bytes_u64(v: int) -> Seq<u8> {
    be_bytes_u32(v / 0x1_0000_0000) + be_bytes_u32(v % 0x1_0000_0000)
}

/// Reading back what [`be_bytes_u32`] wrote gives the number again.
pub proof fn lemma_be_u32_round_trip(v: int)
    requires
        0 <= v < 0x1_0000_0000,
    ensures
        be_bytes_u32(v).len() == 4,
        be_u32(be_bytes_u32(v)) == v,
{
}

/// Reads a big-endian `u16` from the first two bytes.
pub fn u16_from_be(data: &[u8]) -> (r: u16)
    requires
        data@.len() >= 2,
    ensures
        r == be_u16(data@),
{
    (data[0] as u16) * 0x100 + (data[1] as u16)
}

/// Reads a big-endian `u32` from the first four bytes.
pub fn u32_from_be(data: &[u8]) -> (r: u32)
    requires
        data@.len() >= 4,
    ensures
        r == be_u32(data@),
{
    (data[0] as u32) * 0x100_0000 + (data[1] as u32) * 0x1_0000 + (data[2] as u32) * 0x100 + (
    data[3] as u32)
}

/// Reads a big-endian `u64` from the first eight bytes.
pub fn u64_from_be(data: &[u8]) -> (r: u64)
    requires
        data@.len() >= 8,
    ensures
        r == be_u64(data@),
{
    let hi: u64 = (data[0] as u64) * 0x100_0000 + (data[1] as u64) * 0x1_0000 + (data[2] as u64)
        * 0x100 + (data[3] as u64);
    let lo: u64 = (data[4] as u64) * 0x100_0000 + (data[5] as u64) * 0x1_0000 + (data[6] as u64)
        * 0x100 + (data[7] as u64);
    hi * 0x1_0000_0000 + lo
}

/// Reads a 16-bit pattern as a signed number.
pub fn i16_from_bits(u: u16) -> (r: i16)
    ensures
        r == signed16(u as int),
{
    if u < 0x8000 {
        u as i16
    } else {
        ((u - 0x8000) as i16) + i16::MIN
    }
}

/// Reads a 32-bit pattern as a signed number.
pub fn i32_from_bits(u: u32) -> (r: i32)
    ensures
        r == signed32(u as int),
{
    if u < 0x8000_0000 {
        u as i32
    } else {
        ((u - 0x8000_0000) as i32) + i32::MIN
    }
}

/// Reads a 64-bit pattern as a signed number.
pub fn i64_from_bits(u: u64) -> (r: i64)
    ensures
        r == signed64(u as int),
{
    if u < 0x8000_0000_0000_0000 {
        u as i64
    } else {
        ((u - 0x8000_0000_0000_0000) as i64) + i64::MIN
    }
}

/// The two's-complement pattern of `i`.
pub fn i64_to_bits(i: i64) -> (r: u64)
    ensures
        r == unsigned64(i as int),
{
    if i >= 0 {
        i as u64
    } else {
        ((i - i64::MIN) as u64) + 0x8000_0000_0000_0000
    }
}

/// Appends the four big-endian bytes of `v`.
pub fn push_be_u32(buffer: &mut Vec<u8>, v: u32)
    ensures
        final(buffer)@ == old(buffer)@ + be_bytes_u32(v as int),
{
    buffer.push((v / 0x100_0000) as u8);
    buffer.push((v / 0x1_0000 % 0x100) as u8);
    buffer.push((v / 0x100 % 0x100) as u8);
    buffer.push((v % 0x100) as u8);
}

/// Appends the eight big-endian bytes of `v`.
pub fn push_be_u64(buffer: &mut Vec<u8>, v: u64)
    ensures
        final(buffer)@ == old(buffer)@ + be_bytes_u64(v as int),
{
    push_be_u32(buffer, (v / 0x1_0000_0000) as u32);
    push_be_u32(buffer, (v % 0x1_0000_0000) as u32);
}

/// What [`read_u64_from_slice`] returns on `data`.
pub open spec fn spec_read_u64(data: Seq<u8>) -> Result<u64, ErrorView> {
    if data.len() < 8 {
        Err(ErrorView::UnexpectedEndOfData("u64"@))
    } else {
        Ok(be_u64(data) as u64)
    }
}

/// What [`read_i64_from_slice`] returns on `data`.
pub open spec fn spec_read_i64(data: Seq<u8>) -> Result<i64, ErrorView> {
    if data.len() < 8 {
        Err(ErrorView::UnexpectedEndOfData("i64"@))
    } else {
        Ok(signed64(be_u64(data)) as i64)
    }
}

/// Reads a big-endian `u64` from the front of `data`.
pub fn read_u64_from_slice(data: &[u8]) -> (r: Result<u64, Error>)
    ensures
        outcome(r) == spec_read_u64(data@),
{
    if data.len() < 8 {
        return Err(Error::UnexpectedEndOfData("u64"));
    }
    Ok(u64_from_be(data))
}

/// Reads a big-endian `i64` from the front of `data`.
pub fn read_i64_from_slice(data: &[u8]) -> (r: Result<i64, Error>)
    ensures
        outcome(r) == spec_read_i64(data@),
{
    if data.len() < 8 {
        return Err(Error::UnexpectedEndOfData("i64"));
    }
    Ok(i64_from_bits(u64_from_be(data)))
}


/// A value read from the front of a byte string, and the bytes behind it.
pub type Taken<T> = Result<(T, Seq<u8>), ErrorView>;

/// What [`read_u8`] takes from the front of `data`.
pub open spec fn spec_take_u8(data: Seq<u8>) -> Taken<u8> {
    if data.len() < 1 {
        Err(ErrorView::UnexpectedEndOfData("u8"@))
    } else {
        Ok((data[0], data.skip(1)))
    }
}

/// What [`read_u16`] takes from the front of `data`.
pub open spec fn spec_take_u16(data: Seq<u8>) -> Taken<u16> {
    if data.len() < 2 {
        Err(ErrorView::UnexpectedEndOfData("u16"@))
    } else {
        Ok((be_u16(data) as u16, data.skip(2)))
    }
}

/// What [`read_u32`] takes from the front of `data`.
pub open spec fn spec_take_u32(data: Seq<u8>) -> Taken<u32> {
    if data.len() < 4 {
        Err(ErrorView::UnexpectedEndOfData("u32"@))
    } else {
        Ok((be_u32(data) as u32, data.skip(4)))
    }
}

/// What [`read_i32`] takes from the front of `data`.
pub open spec fn spec_take_i32(data: Seq<u8>) -> Taken<i32> {
    if data.len() < 4 {
        Err(ErrorView::UnexpectedEndOfData("i32"@))
    } else {
        Ok((signed32(be_u32(data)) as i32, data.skip(4)))
    }
}

/// What [`read_lsn`] takes from the front of `data`.
pub open spec fn spec_take_lsn(data: Seq<u8>) -> Taken<u64> {
    if data.len() < 8 {
        Err(ErrorView::UnexpectedEndOfData("LSN"@))
    } else {
        Ok((be_u64(data) as u64, data.skip(8)))
    }
}

/// The number of bytes before the first NUL, or the length where there is
/// none.
pub open spec fn first_nul(data: Seq<u8>) -> int
    decreases data.len(),
{
    if data.len() == 0 || data[0] == 0 {
        0
    } else {
        1 + first_nul(data.skip(1))
    }
}

/// What [`read_string`] takes from the front of `data`: the text before the
/// first NUL, which is consumed too.
pub open spec fn spec_take_string(data: Seq<u8>) -> Taken<Seq<char>> {
    let n = first_nul(data);
    if n >= data.len() {
        Err(ErrorView::UnterminatedString)
    } else {
        Ok((text_of(data.take(n)), data.skip(n + 1)))
    }
}

/// A position with no NUL before it, and a NUL or the end at it, is where
/// [`first_nul`] points.
pub proof fn lemma_first_nul(data: Seq<u8>, n: int)
    requires
        0 <= n <= data.len(),
        forall|j: int| 0 <= j < n ==> data[j] != 0,
        n == data.len() || data[n] == 0,
    ensures
        first_nul(data) == n,
    decreases data.len(),
{
    if n > 0 {
        let rest = data.skip(1);
        assert forall|j: int| 0 <= j < n - 1 implies rest[j] != 0 by {
            assert(rest[j] == data[j + 1]);
        }
        lemma_first_nul(rest, n - 1);
    }
}

/// How a cursor read went: the value with the cursor behind it, or the error
/// with the cursor where it was.
pub open spec fn took<T>(
    r: Result<T, Error>,
    before: Seq<u8>,
    after: Seq<u8>,
    expected: Taken<T>,
) -> bool {
    match expected {
        Ok((v, rest)) => r == Ok::<T, Error>(v) && after == rest,
        Err(e) => outcome(r) == Err::<T, ErrorView>(e) && after == before,
    }
}

/// Takes one byte from the front of `data`.
pub fn read_u8(data: &mut &[u8]) -> (r: Result<u8, Error>)
    ensures
        took(r, old(data)@, final(data)@, spec_take_u8(old(data)@)),
{
    if data.len() < 1 {
        return Err(Error::UnexpectedEndOfData("u8"));
    }
    let value = data[0];
    *data = &data[1..data.len()];
    Ok(value)
}

/// Takes a big-endian `u16` from the front of `data`.
pub fn read_u16(data: &mut &[u8]) -> (r: Result<u16, Error>)
    ensures
        took(r, old(data)@, final(data)@, spec_take_u16(old(data)@)),
{
    if data.len() < 2 {
        return Err(Error::UnexpectedEndOfData("u16"));
    }
    let value = u16_from_be(*data);
    *data = &data[2..data.len()];
    Ok(value)
}

/// Takes a big-endian `u32` from the front of `data`.
pub fn read_u32(data: &mut &[u8]) -> (r: Result<u32, Error>)
    ensures
        took(r, old(data)@, final(data)@, spec_take_u32(old(data)@)),
{
    if data.len() < 4 {
        return Err(Error::UnexpectedEndOfData("u32"));
    }
    let value = u32_from_be(*data);
    *data = &data[4..data.len()];
    Ok(value)
}

/// Takes a big-endian `i32` from the front of `data`.
pub fn read_i32(data: &mut &[u8]) -> (r: Result<i32, Error>)
    ensures
        took(r, old(data)@, final(data)@, spec_take_i32(old(data)@)),
{
    if data.len() < 4 {
        return Err(Error::UnexpectedEndOfData("i32"));
    }
    let value = i32_from_bits(u32_from_be(*data));
    *data = &data[4..data.len()];
    Ok(value)
}

/// Takes a big-endian log sequence number from the front of `data`.
pub fn read_lsn(data: &mut &[u8]) -> (r: Result<u64, Error>)
    ensures
        took(r, old(data)@, final(data)@, spec_take_lsn(old(data)@)),
{
    if data.len() < 8 {
        return Err(Error::UnexpectedEndOfData("LSN"));
    }
    let value = u64_from_be(*data);
    *data = &data[8..data.len()];
    Ok(value)
}

/// The number of bytes before the first NUL, or the length where there is
/// none.
pub fn nul_position(data: &[u8]) -> (r: usize)
    ensures
        r == first_nul(data@),
        r <= data@.len(),
{
    let mut len: usize = 0;
    while len < data.len() && data[len] != 0
        invariant
            len <= data@.len(),
            forall|j: int| 0 <= j < len ==> data@[j] != 0,
        decreases data@.len() - len,
    {
        len = len + 1;
    }
    proof {
        lemma_first_nul(data@, len as int);
    }
    len
}

/// Takes a NUL-terminated string from the front of `data`. Bytes that are
/// not UTF-8 are replaced, not refused.
pub fn read_string(data: &mut &[u8]) -> (r: Result<String, Error>)
    ensures
        match spec_take_string(old(data)@) {
            Ok((text, rest)) => r is Ok && r->Ok_0@ == text && final(data)@ == rest,
            Err(e) => outcome(r) == Err::<String, ErrorView>(e) && final(data)@ == old(data)@,
        },
{
    let len = nul_position(*data);
    if len >= data.len() {
        return Err(Error::UnterminatedString);
    }
    let result = bytes_to_string(&data[0..len]);
    *data = &data[len + 1..data.len()];
    Ok(result)
}

} // verus!
