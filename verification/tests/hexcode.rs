use lolrepl::hexcode::hex_digit_of;
use lolrepl::hexcode::push_hex;

#[test]
fn hexadecimal_digits_are_lowercase() {
    let digits: Vec<u8> = (0..16).map(hex_digit_of).collect();
    assert_eq!(digits, b"0123456789abcdef".to_vec());
}

#[test]
fn two_digits_for_each_byte() {
    let mut out = Vec::new();
    push_hex(&mut out, &[0x00, 0x0f, 0xf0, 0xa5, 0xff]);
    assert_eq!(out, b"000ff0a5ff".to_vec());
}

#[test]
fn hexadecimal_digits_are_appended() {
    let mut out = b"md5".to_vec();
    push_hex(&mut out, &[0x12, 0xab]);
    push_hex(&mut out, &[]);
    assert_eq!(out, b"md512ab".to_vec());
}

#[test]
fn what_is_written_is_read_back_by_the_hex_crate() {
    let bytes: Vec<u8> = (0..=255).collect();
    let mut out = Vec::new();
    push_hex(&mut out, &bytes);
    assert_eq!(hex::decode(&out).unwrap(), bytes);
    assert_eq!(String::from_utf8(out).unwrap(), hex::encode(&bytes));
}
