//! Hexadecimal text: written here, read by the `hex` crate.

use vstd::prelude::*;

verus! {

/// Why a text is no hexadecimal string: the failures of `hex::decode`.
#[derive(Debug, Clone, Copy, PartialEq, Eq, Structural)]
pub enum HexError {
    /// A character that is no hexadecimal digit, and its position.
    InvalidHexCharacter { c: char, index: usize },
    /// An odd number of digits.
    OddLength,
    /// A number of digits that does not fill a container of fixed size.
    InvalidStringLength,
}

/// The lowercase hexadecimal digit for a value below 16.
pub open spec fn hex_digit(n: int) -> u8 {
    if n < 10 {
        (0x30 + n) as u8
    } else {
        (0x61 + n - 10) as u8
    }
}

/// Two lowercase hexadecimal digits for each byte, high half first.
pub open spec fn hex_string(bytes: Seq<u8>) -> Seq<u8> {
    Seq::new(
        2 * bytes.len(),
        |i: int|
            if i % 2 == 0 {
                hex_digit(bytes[i / 2] as int / 16)
            } else {
                hex_digit(bytes[i / 2] as int % 16)
            },
    )
}

/// The value of a hexadecimal digit of either case.
pub open spec fn hex_value(c: u8) -> Option<int> {
    if 0x30 <= c <= 0x39 {
        Some(c as int - 0x30)
    } else if 0x61 <= c <= 0x66 {
        Some(c as int - 0x61 + 10)
    } else if 0x41 <= c <= 0x46 {
        Some(c as int - 0x41 + 10)
    } else {
        None
    }
}

/// The bytes that a string of hexadecimal digits spells, two digits each.
pub open spec fn hex_bytes(s: Seq<u8>) -> Seq<u8> {
    Seq::new(
        s.len() / 2,
        |i: int| (hex_value(s[2 * i]).unwrap() * 16 + hex_value(s[2 * i + 1]).unwrap()) as u8,
    )
}

/// True for the digits and the letters `a` to `f`.
pub open spec fn is_lower_hex_digit(b: u8) -> bool {
    (0x30 <= b <= 0x39) || (0x61 <= b <= 0x66)
}

/// Hexadecimal text is made of digits and the letters `a` to `f`, two for
/// each byte.
pub proof fn lemma_hex_string_chars(bytes: Seq<u8>)
    ensures
        hex_string(bytes).len() == 2 * bytes.len(),
        forall|i: int|
            0 <= i < 2 * bytes.len() ==> is_lower_hex_digit(#[trigger] hex_string(bytes)[i]),
{
    assert forall|i: int| 0 <= i < 2 * bytes.len() implies is_lower_hex_digit(
        #[trigger] hex_string(bytes)[i],
    ) by {
        let b = bytes[i / 2] as int;
        assert(0 <= b / 16 < 16 && 0 <= b % 16 < 16);
    }
}

/// The position of the first byte that is no hexadecimal digit, or the
/// length where all are.
pub open spec fn first_non_hex(s: Seq<u8>) -> int
    decreases s.len(),
{
    if s.len() == 0 || hex_value(s[0]) is None {
        0
    } else {
        1 + first_non_hex(s.skip(1))
    }
}

/// What `hex::decode` makes of a text: an odd number of bytes is refused
/// first, then the first byte that is no hexadecimal digit, of either case;
/// what is left spells the bytes, two digits each.
pub open spec fn spec_hex_decode(s: Seq<u8>) -> Result<Seq<u8>, HexError> {
    if s.len() % 2 != 0 {
        Err(HexError::OddLength)
    } else if 0 <= first_non_hex(s) < s.len() {
        Err(
            HexError::InvalidHexCharacter {
                c: s[first_non_hex(s)] as char,
                index: first_non_hex(s) as usize,
            },
        )
    } else {
        Ok(hex_bytes(s))
    }
}

/// `hex::decode`: see [`spec_hex_decode`].
#[verifier::external_body]
pub(crate) fn hex_decode(text: &[u8]) -> (r: Result<Vec<u8>, HexError>)
    ensures
        match r {
            Ok(v) => spec_hex_decode(text@) == Ok::<Seq<u8>, HexError>(v@),
            Err(e) => spec_hex_decode(text@) == Err::<Seq<u8>, HexError>(e),
        },
{
    match hex::decode(text) {
        Ok(bytes) => Ok(bytes),
        Err(hex::FromHexError::InvalidHexCharacter { c, index }) => Err(
            HexError::InvalidHexCharacter { c, index },
        ),
        Err(hex::FromHexError::OddLength) => Err(HexError::OddLength),
        Err(hex::FromHexError::InvalidStringLength) => Err(HexError::InvalidStringLength),
    }
}

/// The lowercase hexadecimal digit for a value below 16.
pub fn hex_digit_of(n: u8) -> (r: u8)
    requires
        n < 16,
    ensures
        r == hex_digit(n as int),
        r < 128,
{
    if n < 10 {
        0x30 + n
    } else {
        0x61 + (n - 10)
    }
}

/// Appends two lowercase hexadecimal digits for each byte.
pub fn push_hex(buffer: &mut Vec<u8>, bytes: &[u8])
    ensures
        final(buffer)@ == old(buffer)@ + hex_string(bytes@),
{
    let mut i: usize = 0;
    while i < bytes.len()
        invariant
            i <= bytes@.len(),
            buffer@ == old(buffer)@ + hex_string(bytes@.take(i as int)),
        decreases bytes@.len() - i,
    {
        let b = bytes[i];
        let ghost before = buffer@;
        buffer.push(hex_digit_of(b / 16));
        buffer.push(hex_digit_of(b % 16));
        proof {
            let prev = bytes@.take(i as int);
            let next = bytes@.take(i as int + 1);
            assert(hex_string(next) =~= hex_string(prev).push(hex_digit(b as int / 16)).push(
                hex_digit(b as int % 16),
            )) by {
                assert forall|k: int| 0 <= k < 2 * next.len() implies hex_string(next)[k]
                    == hex_string(prev).push(hex_digit(b as int / 16)).push(
                    hex_digit(b as int % 16),
                )[k] by {
                    if k < 2 * i {
                        assert(next[k / 2] == prev[k / 2]);
                    } else {
                        assert(k / 2 == i);
                    }
                }
            }
            assert(buffer@ =~= old(buffer)@ + hex_string(next));
        }
        i = i + 1;
    }
    assert(bytes@.take(bytes@.len() as int) =~= bytes@);
}

} // verus!
