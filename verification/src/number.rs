//! Decimal integers as text, and the grammar of floating-point literals.

use crate::error::FloatErrorKind;
use crate::error::IntErrorKind;
use crate::text::is_ascii_bytes;
use vstd::prelude::*;

verus! {

/// The byte `+`.
pub const PLUS: u8 = 0x2b;

/// The byte `-`.
pub const MINUS: u8 = 0x2d;

/// The byte `0`; the other digits follow it.
pub const ZERO: u8 = 0x30;

/// The byte `9`.
pub const NINE: u8 = 0x39;

/// The byte `.`.
pub const POINT: u8 = 0x2e;

/// The byte `e`.
pub const LOWER_E: u8 = 0x65;

/// The byte `E`.
pub const UPPER_E: u8 = 0x45;

/// True for the ASCII digits.
pub open spec fn is_digit(b: u8) -> bool {
    ZERO <= b <= NINE
}

/// Reads digits from left to right, starting from `acc`; with `negative` the
/// digits count downwards. Stops at the first byte that is no digit, or at
/// the first step that leaves `min ..= max`.
pub open spec fn fold_digits(s: Seq<u8>, acc: int, negative: bool, min: int, max: int) -> Result<
    int,
    IntErrorKind,
>
    decreases s.len(),
{
    if s.len() == 0 {
        Ok(acc)
    } else if !is_digit(s[0]) {
        Err(IntErrorKind::InvalidDigit)
    } else {
        let d = s[0] as int - ZERO;
        let next = if negative {
            acc * 10 - d
        } else {
            acc * 10 + d
        };
        if next > max {
            Err(IntErrorKind::PosOverflow)
        } else if next < min {
            Err(IntErrorKind::NegOverflow)
        } else {
            fold_digits(s.skip(1), next, negative, min, max)
        }
    }
}

/// The decimal integer that `s` spells, for a type with the range
/// `min ..= max`: an optional sign (`-` only where the type has negative
/// values) and at least one digit, nothing else.
pub open spec fn spec_parse_int(s: Seq<u8>, min: int, max: int) -> Result<int, IntErrorKind> {
    if s.len() == 0 {
        Err(IntErrorKind::Empty)
    } else if s[0] == PLUS || (s[0] == MINUS && min < 0) {
        if s.len() == 1 {
            Err(IntErrorKind::InvalidDigit)
        } else {
            fold_digits(s.skip(1), 0, s[0] == MINUS, min, max)
        }
    } else {
        fold_digits(s, 0, false, min, max)
    }
}

/// The decimal digits of `n`, most significant first, without leading zeros.
pub open spec fn digits_of(n: nat) -> Seq<u8>
    decreases n,
{
    if n < 10 {
        seq![(ZERO + n) as u8]
    } else {
        digits_of(n / 10).push((ZERO + n % 10) as u8)
    }
}

/// The decimal text of `n`: a minus sign for negative numbers, then the
/// digits.
pub open spec fn spec_render_int(n: int) -> Seq<u8> {
    if n < 0 {
        seq![MINUS] + digits_of((-n) as nat)
    } else {
        digits_of(n as nat)
    }
}

/// Decimal text is made of digits, and is never empty.
pub proof fn lemma_digits_of_are_digits(n: nat)
    ensures
        digits_of(n).len() >= 1,
        forall|i: int| 0 <= i < digits_of(n).len() ==> is_digit(#[trigger] digits_of(n)[i]),
    decreases n,
{
    if n >= 10 {
        lemma_digits_of_are_digits(n / 10);
    }
}

/// Decimal text is ASCII.
pub proof fn lemma_render_int_is_ascii(n: int)
    ensures
        is_ascii_bytes(spec_render_int(n)),
{
    if n < 0 {
        lemma_digits_of_are_digits((-n) as nat);
    } else {
        lemma_digits_of_are_digits(n as nat);
    }
}

/// Reading one more digit after `s` continues from what `s` gave.
pub proof fn lemma_fold_digits_push(
    s: Seq<u8>,
    d: u8,
    acc: int,
    negative: bool,
    min: int,
    max: int,
)
    ensures
        fold_digits(s.push(d), acc, negative, min, max) == match fold_digits(
            s,
            acc,
            negative,
            min,
            max,
        ) {
            Ok(v) => fold_digits(seq![d], v, negative, min, max),
            Err(e) => Err(e),
        },
    decreases s.len(),
{
    if s.len() == 0 {
        assert(s.push(d) =~= seq![d]);
    } else {
        assert(s.push(d).skip(1) =~= s.skip(1).push(d));
        assert(s.push(d)[0] == s[0]);
        if is_digit(s[0]) {
            let dv = s[0] as int - ZERO;
            let next = if negative {
                acc * 10 - dv
            } else {
                acc * 10 + dv
            };
            if min <= next <= max {
                lemma_fold_digits_push(s.skip(1), d, next, negative, min, max);
            }
        }
    }
}

/// Reading the digits of `n` gives `n` back, or `-n` when counting
/// downwards, as long as that number is in range.
pub proof fn lemma_fold_digits_of(n: nat, negative: bool, min: int, max: int)
    requires
        min <= 0 <= max,
        negative ==> min <= -(n as int),
        !negative ==> n <= max,
    ensures
        fold_digits(digits_of(n), 0, negative, min, max) == Ok::<int, IntErrorKind>(
            if negative {
                -(n as int)
            } else {
                n as int
            },
        ),
    decreases n,
{
    let signed_n = if negative {
        -(n as int)
    } else {
        n as int
    };
    if n < 10 {
        let s = digits_of(n);
        assert(s.skip(1).len() == 0);
        assert(s[0] as int - ZERO == n);
        assert(fold_digits(s.skip(1), signed_n, negative, min, max) == Ok::<int, IntErrorKind>(
            signed_n,
        ));
    } else {
        let q = n / 10;
        let r = n % 10;
        lemma_fold_digits_of(q, negative, min, max);
        let d = (ZERO + r) as u8;
        lemma_fold_digits_push(digits_of(q), d, 0, negative, min, max);
        let v = if negative {
            -(q as int)
        } else {
            q as int
        };
        let one = seq![d];
        assert(one.skip(1).len() == 0);
        assert(one[0] as int - ZERO == r);
        assert(fold_digits(one.skip(1), signed_n, negative, min, max) == Ok::<int, IntErrorKind>(
            signed_n,
        ));
        assert(fold_digits(one, v, negative, min, max) == Ok::<int, IntErrorKind>(signed_n));
    }
}

/// Decimal text reads back as the number it was made from.
pub proof fn lemma_parse_render_int(n: int, min: int, max: int)
    requires
        min <= 0 <= max,
        min <= n <= max,
    ensures
        spec_parse_int(spec_render_int(n), min, max) == Ok::<int, IntErrorKind>(n),
{
    let s = spec_render_int(n);
    if n < 0 {
        let m = (-n) as nat;
        lemma_digits_of_are_digits(m);
        assert(s.skip(1) =~= digits_of(m));
        lemma_fold_digits_of(m, true, min, max);
    } else {
        lemma_digits_of_are_digits(n as nat);
        assert(is_digit(s[0]));
        lemma_fold_digits_of(n as nat, false, min, max);
    }
}

/// Reads a decimal integer of a type with the range `min ..= max`.
pub fn parse_int(bytes: &[u8], min: i128, max: i128) -> (r: Result<i128, IntErrorKind>)
    requires
        -0x1_0000_0000_0000_0000 <= min <= 0 <= max <= 0x1_0000_0000_0000_0000,
    ensures
        match spec_parse_int(bytes@, min as int, max as int) {
            Ok(v) => r == Ok::<i128, IntErrorKind>(v as i128) && min <= v <= max,
            Err(e) => r == Err::<i128, IntErrorKind>(e),
        },
{
    if bytes.len() == 0 {
        return Err(IntErrorKind::Empty);
    }
    let first = bytes[0];
    let signed = first == PLUS || (first == MINUS && min < 0);
    let negative = signed && first == MINUS;
    if signed && bytes.len() == 1 {
        return Err(IntErrorKind::InvalidDigit);
    }
    let start: usize = if signed {
        1
    } else {
        0
    };
    let mut i: usize = start;
    let mut acc: i128 = 0;
    let ghost whole = if signed {
        bytes@.skip(1)
    } else {
        bytes@
    };
    assert(bytes@.skip(0) =~= bytes@);
    while i < bytes.len()
        invariant
            start <= i <= bytes@.len(),
            start <= 1,
            whole == bytes@.skip(start as int),
            -0x1_0000_0000_0000_0000 <= min <= 0 <= max <= 0x1_0000_0000_0000_0000,
            min <= acc <= max,
            spec_parse_int(bytes@, min as int, max as int) == fold_digits(
                whole,
                0,
                negative,
                min as int,
                max as int,
            ),
            fold_digits(whole, 0, negative, min as int, max as int) == fold_digits(
                bytes@.skip(i as int),
                acc as int,
                negative,
                min as int,
                max as int,
            ),
        decreases bytes@.len() - i,
    {
        let b = bytes[i];
        proof {
            assert(bytes@.skip(i as int)[0] == b);
            assert(bytes@.skip(i as int).skip(1) =~= bytes@.skip(i as int + 1));
        }
        if b < ZERO || b > NINE {
            return Err(IntErrorKind::InvalidDigit);
        }
        let d: i128 = (b - ZERO) as i128;
        let next: i128 = if negative {
            acc * 10 - d
        } else {
            acc * 10 + d
        };
        if next > max {
            return Err(IntErrorKind::PosOverflow);
        }
        if next < min {
            return Err(IntErrorKind::NegOverflow);
        }
        acc = next;
        i = i + 1;
    }
    Ok(acc)
}

/// Appends the decimal digits of `n`.
pub fn push_digits(buffer: &mut Vec<u8>, n: u64)
    ensures
        final(buffer)@ == old(buffer)@ + digits_of(n as nat),
    decreases n,
{
    if n < 10 {
        buffer.push(ZERO + (n as u8));
        assert(final(buffer)@ =~= old(buffer)@ + digits_of(n as nat));
    } else {
        push_digits(buffer, n / 10);
        buffer.push(ZERO + ((n % 10) as u8));
        assert(final(buffer)@ =~= old(buffer)@ + digits_of(n as nat));
    }
}

/// Appends the decimal text of `n`.
pub fn push_int(buffer: &mut Vec<u8>, n: i64)
    ensures
        final(buffer)@ == old(buffer)@ + spec_render_int(n as int),
{
    if n < 0 {
        buffer.push(MINUS);
        let magnitude: u64 = if n == i64::MIN {
            0x8000_0000_0000_0000
        } else {
            (-n) as u64
        };
        push_digits(buffer, magnitude);
        assert(final(buffer)@ =~= old(buffer)@ + spec_render_int(n as int));
    } else {
        push_digits(buffer, n as u64);
    }
}

/// The number of digits at the front of `s`.
pub open spec fn leading_digits(s: Seq<u8>) -> int
    decreases s.len(),
{
    if s.len() == 0 || !is_digit(s[0]) {
        0
    } else {
        1 + leading_digits(s.skip(1))
    }
}

/// The bytes without a leading `+` or `-`.
pub open spec fn without_sign(s: Seq<u8>) -> Seq<u8> {
    if s.len() > 0 && (s[0] == PLUS || s[0] == MINUS) {
        s.skip(1)
    } else {
        s
    }
}

/// The lowercase form of an ASCII letter; every other byte as it is.
pub open spec fn ascii_lower(b: u8) -> u8 {
    if 0x41 <= b <= 0x5a {
        (b + 0x20) as u8
    } else {
        b
    }
}

/// True when `s` is `word` but for the case of its letters.
pub open spec fn is_word(s: Seq<u8>, word: Seq<u8>) -> bool {
    s.len() == word.len() && forall|i: int|
        0 <= i < s.len() ==> ascii_lower(#[trigger] s[i]) == word[i]
}

/// The bytes `inf`.
pub open spec fn word_inf() -> Seq<u8> {
    seq![0x69u8, 0x6eu8, 0x66u8]
}

/// The bytes `nan`.
pub open spec fn word_nan() -> Seq<u8> {
    seq![0x6eu8, 0x61u8, 0x6eu8]
}

/// The bytes `infinity`.
pub open spec fn word_infinity() -> Seq<u8> {
    seq![0x69u8, 0x6eu8, 0x66u8, 0x69u8, 0x6eu8, 0x69u8, 0x74u8, 0x79u8]
}

/// True for nothing, and for an exponent: `e` or `E`, an optional sign, and
/// digits to the end.
pub open spec fn is_exponent_or_empty(s: Seq<u8>) -> bool {
    s.len() == 0 || ((s[0] == LOWER_E || s[0] == UPPER_E) && {
        let digits = without_sign(s.skip(1));
        digits.len() >= 1 && leading_digits(digits) == digits.len()
    })
}

/// True for an unsigned decimal number: digits with at most one point among
/// them, at least one digit in all, and an optional exponent.
pub open spec fn is_decimal_number(s: Seq<u8>) -> bool {
    let whole = leading_digits(s);
    if whole < s.len() && s[whole] == POINT {
        let fraction = leading_digits(s.skip(whole + 1));
        whole + fraction >= 1 && is_exponent_or_empty(s.skip(whole + 1 + fraction))
    } else {
        whole >= 1 && is_exponent_or_empty(s.skip(whole))
    }
}

/// Whether `s` is a floating-point literal: an optional sign, then `inf`,
/// `infinity` or `nan` in any case, or a decimal number.
pub open spec fn spec_check_float(s: Seq<u8>) -> Result<(), FloatErrorKind> {
    let body = without_sign(s);
    if s.len() == 0 {
        Err(FloatErrorKind::Empty)
    } else if is_word(body, word_inf()) || is_word(body, word_nan()) || is_word(
        body,
        word_infinity(),
    ) || is_decimal_number(body) {
        Ok(())
    } else {
        Err(FloatErrorKind::Invalid)
    }
}

/// A position with digits before it, and none or the end at it, is where
/// [`leading_digits`] stops.
pub proof fn lemma_leading_digits(s: Seq<u8>, n: int)
    requires
        0 <= n <= s.len(),
        forall|j: int| 0 <= j < n ==> is_digit(s[j]),
        n == s.len() || !is_digit(s[n]),
    ensures
        leading_digits(s) == n,
    decreases s.len(),
{
    if n > 0 {
        let rest = s.skip(1);
        assert forall|j: int| 0 <= j < n - 1 implies is_digit(rest[j]) by {
            assert(rest[j] == s[j + 1]);
        }
        lemma_leading_digits(rest, n - 1);
    }
}

/// The number of digits at the front of `s`.
pub fn count_digits(s: &[u8]) -> (r: usize)
    ensures
        r == leading_digits(s@),
        r <= s@.len(),
{
    let mut n: usize = 0;
    while n < s.len() && ZERO <= s[n] && s[n] <= NINE
        invariant
            n <= s@.len(),
            forall|j: int| 0 <= j < n ==> is_digit(s@[j]),
        decreases s@.len() - n,
    {
        n = n + 1;
    }
    proof {
        lemma_leading_digits(s@, n as int);
    }
    n
}

/// The lowercase form of an ASCII letter; every other byte as it is.
pub fn to_ascii_lower(b: u8) -> (r: u8)
    ensures
        r == ascii_lower(b),
{
    if 0x41 <= b && b <= 0x5a {
        b + 0x20
    } else {
        b
    }
}

/// True when `s` is `word` but for the case of its letters.
pub fn matches_word(s: &[u8], word: &[u8]) -> (r: bool)
    ensures
        r == is_word(s@, word@),
{
    if s.len() != word.len() {
        return false;
    }
    let mut i: usize = 0;
    while i < s.len()
        invariant
            i <= s@.len(),
            s@.len() == word@.len(),
            forall|j: int| 0 <= j < i ==> ascii_lower(#[trigger] s@[j]) == word@[j],
        decreases s@.len() - i,
    {
        if to_ascii_lower(s[i]) != word[i] {
            return false;
        }
        i = i + 1;
    }
    true
}

/// The bytes without a leading `+` or `-`.
pub fn strip_sign(s: &[u8]) -> (r: &[u8])
    ensures
        r@ == without_sign(s@),
{
    if s.len() > 0 && (s[0] == PLUS || s[0] == MINUS) {
        let rest = &s[1..s.len()];
        assert(rest@ =~= s@.skip(1));
        rest
    } else {
        s
    }
}

/// True for nothing, and for an exponent.
pub fn exponent_or_empty(s: &[u8]) -> (r: bool)
    ensures
        r == is_exponent_or_empty(s@),
{
    if s.len() == 0 {
        return true;
    }
    if !(s[0] == LOWER_E || s[0] == UPPER_E) {
        return false;
    }
    let rest = &s[1..s.len()];
    assert(rest@ =~= s@.skip(1));
    let digits = strip_sign(rest);
    digits.len() >= 1 && count_digits(digits) == digits.len()
}

/// True for an unsigned decimal number.
pub fn decimal_number(s: &[u8]) -> (r: bool)
    ensures
        r == is_decimal_number(s@),
{
    let whole = count_digits(s);
    if whole < s.len() && s[whole] == POINT {
        let after_point = &s[whole + 1..s.len()];
        assert(after_point@ =~= s@.skip(whole + 1));
        let fraction = count_digits(after_point);
        let rest = &after_point[fraction..after_point.len()];
        assert(rest@ =~= s@.skip(whole + 1 + fraction));
        whole + fraction >= 1 && exponent_or_empty(rest)
    } else {
        let rest = &s[whole..s.len()];
        assert(rest@ =~= s@.skip(whole as int));
        whole >= 1 && exponent_or_empty(rest)
    }
}

/// Whether the text is a floating-point literal: see [`spec_check_float`].
pub fn check_float(s: &[u8]) -> (r: Result<(), FloatErrorKind>)
    ensures
        r == spec_check_float(s@),
{
    if s.len() == 0 {
        return Err(FloatErrorKind::Empty);
    }
    let body = strip_sign(s);
    let inf: [u8; 3] = [0x69, 0x6e, 0x66];
    let nan: [u8; 3] = [0x6e, 0x61, 0x6e];
    let infinity: [u8; 8] = [0x69, 0x6e, 0x66, 0x69, 0x6e, 0x69, 0x74, 0x79];
    assert(inf@ =~= word_inf());
    assert(nan@ =~= word_nan());
    assert(infinity@ =~= word_infinity());
    if matches_word(body, inf.as_slice()) || matches_word(body, nan.as_slice()) || matches_word(
        body,
        infinity.as_slice(),
    ) || decimal_number(body) {
        Ok(())
    } else {
        Err(FloatErrorKind::Invalid)
    }
}

} // verus!
