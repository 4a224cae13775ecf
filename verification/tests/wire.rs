use lolrepl::error::Error;
use lolrepl::wire::i16_from_bits;
use lolrepl::wire::i32_from_bits;
use lolrepl::wire::i64_from_bits;
use lolrepl::wire::i64_to_bits;
use lolrepl::wire::nul_position;
use lolrepl::wire::push_be_u32;
use lolrepl::wire::push_be_u64;
use lolrepl::wire::read_i32;
use lolrepl::wire::read_i64_from_slice;
use lolrepl::wire::read_lsn;
use lolrepl::wire::read_string;
use lolrepl::wire::read_u16;
use lolrepl::wire::read_u32;
use lolrepl::wire::read_u64_from_slice;
use lolrepl::wire::read_u8;
use lolrepl::wire::u16_from_be;
use lolrepl::wire::u32_from_be;
use lolrepl::wire::u64_from_be;

#[test]
fn big_endian_numbers() {
    assert_eq!(u16_from_be(&[0x12, 0x34]), 0x1234);
    assert_eq!(u32_from_be(&[0x12, 0x34, 0x56, 0x78]), 0x1234_5678);
    assert_eq!(
        u64_from_be(&[0x01, 0x23, 0x45, 0x67, 0x89, 0xab, 0xcd, 0xef]),
        0x0123_4567_89ab_cdef
    );
    assert_eq!(u64_from_be(&[0xff; 8]), u64::MAX);
    assert_eq!(u32_from_be(&[0xff; 4]), u32::MAX);
}

#[test]
fn bits_as_signed_numbers() {
    assert_eq!(i16_from_bits(0x7fff), i16::MAX);
    assert_eq!(i16_from_bits(0x8000), i16::MIN);
    assert_eq!(i16_from_bits(0xffff), -1);
    assert_eq!(i32_from_bits(0xffff_ffff), -1);
    assert_eq!(i32_from_bits(0x8000_0000), i32::MIN);
    assert_eq!(i32_from_bits(0x7fff_ffff), i32::MAX);
    assert_eq!(i64_from_bits(u64::MAX), -1);
    assert_eq!(i64_from_bits(0x8000_0000_0000_0000), i64::MIN);
    assert_eq!(i64_from_bits(42), 42);
}

#[test]
fn signed_numbers_as_bits() {
    assert_eq!(i64_to_bits(-1), u64::MAX);
    assert_eq!(i64_to_bits(i64::MIN), 0x8000_0000_0000_0000);
    assert_eq!(i64_to_bits(-2), (-2i64).to_be_bytes().iter().fold(0u64, |a, b| a * 256 + *b as u64));
}

#[test]
fn pushed_numbers_are_big_endian() {
    let mut out = Vec::new();
    push_be_u32(&mut out, 196608);
    assert_eq!(out, vec![0, 3, 0, 0]);
    let mut out = Vec::new();
    push_be_u64(&mut out, 0x0123_4567_89ab_cdef);
    assert_eq!(out, 0x0123_4567_89ab_cdefu64.to_be_bytes().to_vec());
}

#[test]
fn slice_readers() {
    assert_eq!(read_u64_from_slice(&[0, 0, 0, 0, 0, 0, 1, 2]).unwrap(), 258);
    assert_eq!(read_u64_from_slice(&[0, 0, 0, 0, 0, 0, 1, 2, 99]).unwrap(), 258);
    assert_eq!(read_i64_from_slice(&[0xff; 8]).unwrap(), -1);
    assert_eq!(read_u64_from_slice(&[0; 7]), Err(Error::UnexpectedEndOfData("u64")));
    assert_eq!(read_i64_from_slice(&[0; 7]), Err(Error::UnexpectedEndOfData("i64")));
}

#[test]
fn cursor_readers_advance() {
    let bytes = [
        0x07, 0x01, 0x02, 0x00, 0x00, 0x01, 0x00, 0xff, 0xff, 0xff, 0xfe, 0, 0, 0, 0, 0, 0, 0, 9,
        0xee,
    ];
    let mut data: &[u8] = &bytes;
    assert_eq!(read_u8(&mut data).unwrap(), 7);
    assert_eq!(read_u16(&mut data).unwrap(), 0x0102);
    assert_eq!(read_u32(&mut data).unwrap(), 256);
    assert_eq!(read_i32(&mut data).unwrap(), -2);
    assert_eq!(read_lsn(&mut data).unwrap(), 9);
    assert_eq!(data, &[0xee]);
}

#[test]
fn cursor_readers_fail_on_short_input_and_stay() {
    let mut data: &[u8] = &[];
    assert_eq!(read_u8(&mut data), Err(Error::UnexpectedEndOfData("u8")));
    let mut data: &[u8] = &[1];
    assert_eq!(read_u16(&mut data), Err(Error::UnexpectedEndOfData("u16")));
    assert_eq!(data, &[1]);
    let mut data: &[u8] = &[1, 2, 3];
    assert_eq!(read_u32(&mut data), Err(Error::UnexpectedEndOfData("u32")));
    assert_eq!(read_i32(&mut data), Err(Error::UnexpectedEndOfData("i32")));
    assert_eq!(data.len(), 3);
    let mut data: &[u8] = &[1, 2, 3, 4, 5, 6, 7];
    assert_eq!(read_lsn(&mut data), Err(Error::UnexpectedEndOfData("LSN")));
    assert_eq!(data.len(), 7);
}

#[test]
fn strings_end_at_the_first_nul() {
    let mut data: &[u8] = b"public\0test_items\0rest";
    assert_eq!(read_string(&mut data).unwrap(), "public");
    assert_eq!(read_string(&mut data).unwrap(), "test_items");
    assert_eq!(data, b"rest");
}

#[test]
fn an_empty_string_is_a_string() {
    let mut data: &[u8] = b"\0x";
    assert_eq!(read_string(&mut data).unwrap(), "");
    assert_eq!(data, b"x");
}

#[test]
fn a_string_without_nul_is_unterminated() {
    let mut data: &[u8] = b"abc";
    assert_eq!(read_string(&mut data), Err(Error::UnterminatedString));
    assert_eq!(data, b"abc");
    let mut data: &[u8] = b"";
    assert_eq!(read_string(&mut data), Err(Error::UnterminatedString));
}

#[test]
fn a_string_that_is_not_utf8_is_repaired() {
    let mut data: &[u8] = &[b'a', 0xff, b'b', 0, 1];
    assert_eq!(read_string(&mut data).unwrap(), "a\u{fffd}b");
    assert_eq!(data, &[1]);
}

#[test]
fn a_string_of_several_bytes_per_character() {
    let mut data: &[u8] = "gr\u{fc}n\u{20ac}\0".as_bytes();
    assert_eq!(read_string(&mut data).unwrap(), "gr\u{fc}n\u{20ac}");
    assert!(data.is_empty());
}

#[test]
fn nul_position_counts_the_bytes_before_the_nul() {
    assert_eq!(nul_position(b"abc\0def\0"), 3);
    assert_eq!(nul_position(b"\0"), 0);
    assert_eq!(nul_position(b"abc"), 3);
    assert_eq!(nul_position(b""), 0);
}
