use lolrepl::error::IntErrorKind;
use lolrepl::number::parse_int;
use lolrepl::number::push_digits;
use lolrepl::number::push_int;

const I32_MIN: i128 = i32::MIN as i128;
const I32_MAX: i128 = i32::MAX as i128;

fn rendered(n: i64) -> String {
    let mut out = Vec::new();
    push_int(&mut out, n);
    String::from_utf8(out).unwrap()
}

#[test]
fn plain_numbers() {
    assert_eq!(parse_int(b"0", I32_MIN, I32_MAX), Ok(0));
    assert_eq!(parse_int(b"12345", I32_MIN, I32_MAX), Ok(12345));
    assert_eq!(parse_int(b"-42", I32_MIN, I32_MAX), Ok(-42));
    assert_eq!(parse_int(b"+42", I32_MIN, I32_MAX), Ok(42));
    assert_eq!(parse_int(b"007", I32_MIN, I32_MAX), Ok(7));
    assert_eq!(parse_int(b"-0", I32_MIN, I32_MAX), Ok(0));
}

#[test]
fn the_ends_of_the_range() {
    assert_eq!(parse_int(b"2147483647", I32_MIN, I32_MAX), Ok(2147483647));
    assert_eq!(parse_int(b"-2147483648", I32_MIN, I32_MAX), Ok(-2147483648));
    assert_eq!(
        parse_int(b"2147483648", I32_MIN, I32_MAX),
        Err(IntErrorKind::PosOverflow)
    );
    assert_eq!(
        parse_int(b"-2147483649", I32_MIN, I32_MAX),
        Err(IntErrorKind::NegOverflow)
    );
    assert_eq!(
        parse_int(b"9223372036854775807", i64::MIN as i128, i64::MAX as i128),
        Ok(i64::MAX as i128)
    );
    assert_eq!(
        parse_int(b"-9223372036854775808", i64::MIN as i128, i64::MAX as i128),
        Ok(i64::MIN as i128)
    );
    assert_eq!(
        parse_int(b"9223372036854775808", i64::MIN as i128, i64::MAX as i128),
        Err(IntErrorKind::PosOverflow)
    );
    assert_eq!(parse_int(b"4294967295", 0, u32::MAX as i128), Ok(4294967295));
    assert_eq!(
        parse_int(b"4294967296", 0, u32::MAX as i128),
        Err(IntErrorKind::PosOverflow)
    );
}

#[test]
fn what_is_not_a_number() {
    assert_eq!(parse_int(b"", I32_MIN, I32_MAX), Err(IntErrorKind::Empty));
    assert_eq!(parse_int(b"-", I32_MIN, I32_MAX), Err(IntErrorKind::InvalidDigit));
    assert_eq!(parse_int(b"+", I32_MIN, I32_MAX), Err(IntErrorKind::InvalidDigit));
    assert_eq!(parse_int(b" 1", I32_MIN, I32_MAX), Err(IntErrorKind::InvalidDigit));
    assert_eq!(parse_int(b"1 ", I32_MIN, I32_MAX), Err(IntErrorKind::InvalidDigit));
    assert_eq!(parse_int(b"1_000", I32_MIN, I32_MAX), Err(IntErrorKind::InvalidDigit));
    assert_eq!(parse_int(b"0x10", I32_MIN, I32_MAX), Err(IntErrorKind::InvalidDigit));
    assert_eq!(parse_int(b"--1", I32_MIN, I32_MAX), Err(IntErrorKind::InvalidDigit));
    assert_eq!(parse_int(b"1.5", I32_MIN, I32_MAX), Err(IntErrorKind::InvalidDigit));
}

#[test]
fn an_unsigned_type_takes_no_minus() {
    assert_eq!(parse_int(b"-1", 0, u32::MAX as i128), Err(IntErrorKind::InvalidDigit));
    assert_eq!(parse_int(b"-0", 0, u32::MAX as i128), Err(IntErrorKind::InvalidDigit));
    assert_eq!(parse_int(b"-", 0, u32::MAX as i128), Err(IntErrorKind::InvalidDigit));
    assert_eq!(parse_int(b"+1", 0, u32::MAX as i128), Ok(1));
}

#[test]
fn the_first_fault_decides() {
    // The overflow comes before the letter.
    assert_eq!(
        parse_int(b"99999999999x", I32_MIN, I32_MAX),
        Err(IntErrorKind::PosOverflow)
    );
    assert_eq!(
        parse_int(b"9x9999999999", I32_MIN, I32_MAX),
        Err(IntErrorKind::InvalidDigit)
    );
}

#[test]
fn agrees_with_the_standard_library() {
    let samples = [
        "0", "1", "-1", "+1", "2147483647", "2147483648", "-2147483648", "-2147483649", "", "+",
        "-", "12a", "a12", "00000000000000000001", "-00000000000000000001", "99999999999999999999",
        " 5", "5 ", "٣", "1e3", "+-1", "-+1",
    ];
    for text in samples {
        let mine = parse_int(text.as_bytes(), I32_MIN, I32_MAX).ok();
        let std_i32 = text.parse::<i32>().ok().map(|n| n as i128);
        assert_eq!(mine, std_i32, "i32 from {:?}", text);
        let mine = parse_int(text.as_bytes(), i64::MIN as i128, i64::MAX as i128).ok();
        let std_i64 = text.parse::<i64>().ok().map(|n| n as i128);
        assert_eq!(mine, std_i64, "i64 from {:?}", text);
        let mine = parse_int(text.as_bytes(), 0, u32::MAX as i128).ok();
        let std_u32 = text.parse::<u32>().ok().map(|n| n as i128);
        assert_eq!(mine, std_u32, "u32 from {:?}", text);
    }
}

#[test]
fn decimal_text() {
    assert_eq!(rendered(0), "0");
    assert_eq!(rendered(7), "7");
    assert_eq!(rendered(10), "10");
    assert_eq!(rendered(-10), "-10");
    assert_eq!(rendered(1700), "1700");
    assert_eq!(rendered(i64::MAX), "9223372036854775807");
    assert_eq!(rendered(i64::MIN), "-9223372036854775808");
    assert_eq!(rendered(i32::MIN as i64), "-2147483648");
}

#[test]
fn digits_are_appended() {
    let mut out = b"n=".to_vec();
    push_digits(&mut out, 18446744073709551615);
    assert_eq!(out, b"n=18446744073709551615".to_vec());
}

#[test]
fn decimal_text_reads_back() {
    for n in [0i64, 1, -1, 9, 10, 99, 100, 32767, -32768, 2147483647, -2147483648] {
        let text = rendered(n);
        assert_eq!(parse_int(text.as_bytes(), I32_MIN, I32_MAX), Ok(n as i128));
    }
    for n in [i64::MAX, i64::MIN, 1234567890123] {
        let text = rendered(n);
        assert_eq!(
            parse_int(text.as_bytes(), i64::MIN as i128, i64::MAX as i128),
            Ok(n as i128)
        );
    }
}
