use lolrepl::error::Error;
use lolrepl::error::FloatErrorKind;
use lolrepl::error::IntErrorKind;
use lolrepl::hexcode::HexError;
use lolrepl::temporal::Date;
use lolrepl::temporal::DateTime;
use lolrepl::temporal::Time;
use lolrepl::value::parse_text_value;
use lolrepl::value::Real;
use lolrepl::value::Value;

#[test]
fn booleans_are_t_and_f() {
    assert_eq!(parse_text_value("t", 16), Ok(Value::Boolean(true)));
    assert_eq!(parse_text_value("f", 16), Ok(Value::Boolean(false)));
}

#[test]
fn any_other_boolean_text_is_refused() {
    assert_eq!(
        parse_text_value("true", 16),
        Err(Error::ParseValue("Invalid boolean value: true".to_string()))
    );
    assert_eq!(
        parse_text_value("", 16),
        Err(Error::ParseValue("Invalid boolean value: ".to_string()))
    );
    assert_eq!(
        parse_text_value("T", 16),
        Err(Error::ParseValue("Invalid boolean value: T".to_string()))
    );
}

#[test]
fn small_integers() {
    assert_eq!(parse_text_value("32767", 21), Ok(Value::Integer(32767)));
    assert_eq!(parse_text_value("-32768", 21), Ok(Value::Integer(-32768)));
    assert_eq!(parse_text_value("2147483647", 23), Ok(Value::Integer(2147483647)));
    assert_eq!(parse_text_value("-2147483648", 23), Ok(Value::Integer(-2147483648)));
    assert_eq!(parse_text_value("100", 23), Ok(Value::Integer(100)));
    // An int2 column is read with the range of an int4.
    assert_eq!(parse_text_value("40000", 21), Ok(Value::Integer(40000)));
}

#[test]
fn big_integers() {
    assert_eq!(
        parse_text_value("9223372036854775807", 20),
        Ok(Value::BigInt(9223372036854775807))
    );
    assert_eq!(
        parse_text_value("-9223372036854775808", 20),
        Ok(Value::BigInt(i64::MIN))
    );
}

#[test]
fn integers_out_of_range_or_malformed() {
    assert_eq!(
        parse_text_value("2147483648", 23),
        Err(Error::ParseInt(IntErrorKind::PosOverflow))
    );
    assert_eq!(
        parse_text_value("-2147483649", 21),
        Err(Error::ParseInt(IntErrorKind::NegOverflow))
    );
    assert_eq!(
        parse_text_value("9223372036854775808", 20),
        Err(Error::ParseInt(IntErrorKind::PosOverflow))
    );
    assert_eq!(parse_text_value("", 23), Err(Error::ParseInt(IntErrorKind::Empty)));
    assert_eq!(
        parse_text_value("12x", 20),
        Err(Error::ParseInt(IntErrorKind::InvalidDigit))
    );
}

#[test]
fn an_oid_is_unsigned_and_kept_in_32_bits() {
    assert_eq!(parse_text_value("12345", 26), Ok(Value::Integer(12345)));
    assert_eq!(parse_text_value("2147483647", 26), Ok(Value::Integer(i32::MAX)));
    assert_eq!(parse_text_value("2147483648", 26), Ok(Value::Integer(i32::MIN)));
    assert_eq!(parse_text_value("4294967295", 26), Ok(Value::Integer(-1)));
    assert_eq!(
        parse_text_value("4294967296", 26),
        Err(Error::ParseInt(IntErrorKind::PosOverflow))
    );
    assert_eq!(
        parse_text_value("-1", 26),
        Err(Error::ParseInt(IntErrorKind::InvalidDigit))
    );
}

#[test]
fn floating_point_text_is_kept_for_the_caller() {
    assert_eq!(
        parse_text_value("3.14", 700),
        Ok(Value::Float(Real::Text("3.14".to_string())))
    );
    assert_eq!(
        parse_text_value("2.718281828459045", 701),
        Ok(Value::Double(Real::Text("2.718281828459045".to_string())))
    );
    assert_eq!(
        parse_text_value("123.45", 1700),
        Ok(Value::Double(Real::Text("123.45".to_string())))
    );
    assert_eq!(
        parse_text_value("-Infinity", 701),
        Ok(Value::Double(Real::Text("-Infinity".to_string())))
    );
    assert_eq!(
        parse_text_value("NaN", 1700),
        Ok(Value::Double(Real::Text("NaN".to_string())))
    );
}

#[test]
fn what_is_no_floating_point_literal_is_refused() {
    assert_eq!(
        parse_text_value("", 700),
        Err(Error::ParseFloat(FloatErrorKind::Empty))
    );
    assert_eq!(
        parse_text_value("abc", 701),
        Err(Error::ParseFloat(FloatErrorKind::Invalid))
    );
    assert_eq!(
        parse_text_value("1,5", 1700),
        Err(Error::ParseFloat(FloatErrorKind::Invalid))
    );
    assert_eq!(
        parse_text_value(" 1.5", 701),
        Err(Error::ParseFloat(FloatErrorKind::Invalid))
    );
}

#[test]
fn floating_point_literals_are_those_of_the_standard_library() {
    let samples = [
        "0", "1", "-1", "+1", "1.", ".5", "1.5", "-.5", "+5.", ".", "-.", "+", "-", "", "e5",
        "1e5", "1E5", "1e+5", "1e-5", "1e", "1e+", "1.e5", ".5e-3", ".e5", "1.5e", "1e5.5",
        "inf", "-inf", "+inf", "INF", "Inf", "infinity", "Infinity", "-INFINITY", "infinit",
        "infinityy", "nan", "NaN", "-nan", "+NAN", "na", "nann", "1_000", "0x10", " 1", "1 ",
        "1f", "١", "1..2", "1.2.3", "--1", "+-1", "1e--5", "123456789012345678901234567890",
        "1e400", "0.000000000000000000000000000001", "é",
    ];
    for text in samples {
        let mine = parse_text_value(text, 701).is_ok();
        let theirs = text.parse::<f64>().is_ok();
        assert_eq!(mine, theirs, "f64 from {:?}", text);
        let mine = parse_text_value(text, 700).is_ok();
        let theirs = text.parse::<f32>().is_ok();
        assert_eq!(mine, theirs, "f32 from {:?}", text);
    }
}

#[test]
fn character_data_is_kept_as_it_is() {
    assert_eq!(parse_text_value("test text", 25), Ok(Value::Text("test text".to_string())));
    assert_eq!(
        parse_text_value("test varchar", 1043),
        Ok(Value::Text("test varchar".to_string()))
    );
    // char(n) arrives padded with blanks, and they stay.
    assert_eq!(
        parse_text_value("test char ", 1042),
        Ok(Value::Text("test char ".to_string()))
    );
    assert_eq!(parse_text_value("x", 18), Ok(Value::Text("x".to_string())));
    assert_eq!(parse_text_value("test_name", 19), Ok(Value::Text("test_name".to_string())));
    assert_eq!(parse_text_value("", 25), Ok(Value::Text(String::new())));
    assert_eq!(
        parse_text_value("gr\u{fc}n \u{20ac}", 25),
        Ok(Value::Text("gr\u{fc}n \u{20ac}".to_string()))
    );
}

#[test]
fn uuid_and_json_are_not_validated() {
    assert_eq!(
        parse_text_value("550e8400-e29b-41d4-a716-446655440000", 2950),
        Ok(Value::Uuid("550e8400-e29b-41d4-a716-446655440000".to_string()))
    );
    assert_eq!(parse_text_value("no uuid", 2950), Ok(Value::Uuid("no uuid".to_string())));
    assert_eq!(
        parse_text_value("{\"key\": \"value\"}", 114),
        Ok(Value::Json("{\"key\": \"value\"}".to_string()))
    );
    assert_eq!(
        parse_text_value("{\"jsonb\": true}", 3802),
        Ok(Value::Jsonb("{\"jsonb\": true}".to_string()))
    );
}

#[test]
fn bytea_is_hexadecimal_behind_a_backslash_x() {
    assert_eq!(
        parse_text_value("\\x48656c6c6f", 17),
        Ok(Value::Binary(vec![0x48, 0x65, 0x6c, 0x6c, 0x6f]))
    );
    assert_eq!(parse_text_value("\\x", 17), Ok(Value::Binary(vec![])));
    assert_eq!(
        parse_text_value("\\xDEADbeef", 17),
        Ok(Value::Binary(vec![0xde, 0xad, 0xbe, 0xef]))
    );
    assert_eq!(parse_text_value("\\x00ff", 17), Ok(Value::Binary(vec![0x00, 0xff])));
}

#[test]
fn bytea_with_bad_digits_is_a_hex_error() {
    assert_eq!(
        parse_text_value("\\x123", 17),
        Err(Error::HexDecode(HexError::OddLength))
    );
    assert_eq!(
        parse_text_value("\\x12g4", 17),
        Err(Error::HexDecode(HexError::InvalidHexCharacter { c: 'g', index: 2 }))
    );
    // An odd number of digits is refused before any digit is looked at.
    assert_eq!(
        parse_text_value("\\xzz1", 17),
        Err(Error::HexDecode(HexError::OddLength))
    );
    // The first bad digit is the one that is named.
    assert_eq!(
        parse_text_value("\\x0k\u{e9}", 17),
        Err(Error::HexDecode(HexError::InvalidHexCharacter { c: 'k', index: 1 }))
    );
    assert_eq!(
        parse_text_value("\\x\u{e9}", 17),
        Err(Error::HexDecode(HexError::InvalidHexCharacter { c: '\u{c3}', index: 0 }))
    );
    // The library names the failure as the `hex` crate does.
    assert_eq!(
        hex::decode("12g4"),
        Err(hex::FromHexError::InvalidHexCharacter { c: 'g', index: 2 })
    );
}

#[test]
fn bytea_without_its_prefix_is_refused() {
    assert_eq!(
        parse_text_value("48656c6c6f", 17),
        Err(Error::ParseValue("Invalid bytea format: 48656c6c6f".to_string()))
    );
    assert_eq!(
        parse_text_value("\\", 17),
        Err(Error::ParseValue("Invalid bytea format: \\".to_string()))
    );
    assert_eq!(
        parse_text_value("", 17),
        Err(Error::ParseValue("Invalid bytea format: ".to_string()))
    );
    assert_eq!(
        parse_text_value("\\X41", 17),
        Err(Error::ParseValue("Invalid bytea format: \\X41".to_string()))
    );
}

#[test]
fn dates() {
    assert_eq!(
        parse_text_value("2023-12-25", 1082),
        Ok(Value::Date(Date { year: 2023, month: 12, day: 25 }))
    );
    assert_eq!(
        parse_text_value("2024-02-29", 1082),
        Ok(Value::Date(Date { year: 2024, month: 2, day: 29 }))
    );
    assert!(matches!(parse_text_value("2023-02-29", 1082), Err(Error::ParseDateTime(_))));
    // The error carries what `jiff` says of the failure.
    let said = jiff::civil::Date::strptime("%Y-%m-%d", "2023-02-29").unwrap_err().to_string();
    assert!(!said.is_empty());
    assert_eq!(parse_text_value("2023-02-29", 1082), Err(Error::ParseDateTime(said)));
    assert!(matches!(parse_text_value("25.12.2023", 1082), Err(Error::ParseDateTime(_))));
    assert!(matches!(parse_text_value("", 1082), Err(Error::ParseDateTime(_))));
}

#[test]
fn times() {
    assert_eq!(
        parse_text_value("14:30:45.123456", 1083),
        Ok(Value::Time(Time { hour: 14, minute: 30, second: 45, subsec_nanosecond: 123_456_000 }))
    );
    assert_eq!(
        parse_text_value("00:00:00", 1083),
        Ok(Value::Time(Time { hour: 0, minute: 0, second: 0, subsec_nanosecond: 0 }))
    );
    assert!(matches!(parse_text_value("25:00:00", 1083), Err(Error::ParseDateTime(_))));
}

#[test]
fn timestamps() {
    assert_eq!(
        parse_text_value("2023-12-25 14:30:45.123456", 1114),
        Ok(Value::Timestamp(DateTime {
            date: Date { year: 2023, month: 12, day: 25 },
            time: Time { hour: 14, minute: 30, second: 45, subsec_nanosecond: 123_456_000 },
        }))
    );
    assert_eq!(
        parse_text_value("2000-01-01 00:00:00", 1114),
        Ok(Value::Timestamp(DateTime {
            date: Date { year: 2000, month: 1, day: 1 },
            time: Time { hour: 0, minute: 0, second: 0, subsec_nanosecond: 0 },
        }))
    );
    assert!(matches!(parse_text_value("2023-12-25", 1114), Err(Error::ParseDateTime(_))));
}

#[test]
fn timestamps_with_time_zone() {
    match parse_text_value("2023-12-25 14:30:45.123456+00", 1184) {
        Ok(Value::TimestampTz(z)) => {
            assert_eq!(z.offset_seconds, 0);
            assert_eq!(z.datetime.date, Date { year: 2023, month: 12, day: 25 });
            assert_eq!(
                z.datetime.time,
                Time { hour: 14, minute: 30, second: 45, subsec_nanosecond: 123_456_000 }
            );
        }
        other => panic!("Expected TimestampTz, got: {:?}", other),
    }
    match parse_text_value("2023-11-12 19:30:00.000000+05:30", 1184) {
        Ok(Value::TimestampTz(z)) => assert_eq!(z.offset_seconds, 19800),
        other => panic!("Expected TimestampTz, got: {:?}", other),
    }
    assert!(matches!(
        parse_text_value("2023-12-25 14:30:45.123456", 1184),
        Err(Error::ParseDateTime(_))
    ));
}

#[test]
fn an_unknown_type_is_refused_with_its_number() {
    assert_eq!(
        parse_text_value("x", 9999),
        Err(Error::ParseValue("Unknown type_id: 9999".to_string()))
    );
    assert_eq!(
        parse_text_value("x", 0),
        Err(Error::ParseValue("Unknown type_id: 0".to_string()))
    );
    assert_eq!(
        parse_text_value("x", 4294967295),
        Err(Error::ParseValue("Unknown type_id: 4294967295".to_string()))
    );
}

#[test]
fn values_have_a_text() {
    assert_eq!(Value::Text("abc".to_string()).to_string(), Some("abc".to_string()));
    assert_eq!(Value::Integer(-17).to_string(), Some("-17".to_string()));
    assert_eq!(Value::BigInt(i64::MIN).to_string(), Some("-9223372036854775808".to_string()));
    assert_eq!(Value::Boolean(true).to_string(), Some("t".to_string()));
    assert_eq!(Value::Boolean(false).to_string(), Some("f".to_string()));
    assert_eq!(Value::Uuid("u".to_string()).to_string(), Some("u".to_string()));
    assert_eq!(Value::Json("{}".to_string()).to_string(), Some("{}".to_string()));
    assert_eq!(Value::Jsonb("[]".to_string()).to_string(), Some("[]".to_string()));
    assert_eq!(
        Value::Binary(vec![1, 2, 3]).to_string(),
        Some("<binary data: 3 bytes>".to_string())
    );
    assert_eq!(Value::Null.to_string(), Some("NULL".to_string()));
    assert_eq!(
        Value::Unknown(vec![1], 1700).to_string(),
        Some("<unknown type: 1700>".to_string())
    );
}

#[test]
fn numbers_and_dates_have_no_text_here() {
    assert_eq!(Value::Float(Real::Bits(0x4048f5c3)).to_string(), None);
    assert_eq!(Value::Double(Real::Text("1.5".to_string())).to_string(), None);
    assert_eq!(Value::Date(Date { year: 2023, month: 12, day: 25 }).to_string(), None);
}

#[test]
fn written_values_read_back() {
    let cases: Vec<(&str, u32)> = vec![
        ("t", 16),
        ("f", 16),
        ("32767", 21),
        ("-5", 21),
        ("+7", 23),
        ("007", 23),
        ("2147483647", 23),
        ("-2147483648", 23),
        ("9223372036854775807", 20),
        ("-9223372036854775808", 20),
        ("550e8400-e29b-41d4-a716-446655440000", 2950),
        ("{\"key\": \"value\"}", 114),
        ("{\"jsonb\": true}", 3802),
        ("test text", 25),
        ("test varchar", 1043),
        ("test char ", 1042),
        ("", 25),
    ];
    for (text, type_id) in cases {
        let value = parse_text_value(text, type_id).unwrap();
        let written = value.to_string().unwrap();
        assert_eq!(parse_text_value(&written, type_id), Ok(value), "{:?} as {}", text, type_id);
    }
}

#[test]
fn a_written_boolean_reads_back() {
    for (text, truth) in [("t", true), ("f", false)] {
        let value = parse_text_value(text, 16).unwrap();
        assert_eq!(value, Value::Boolean(truth));
        let written = value.to_string().unwrap();
        assert_eq!(written, text);
        assert_eq!(parse_text_value(&written, 16), Ok(Value::Boolean(truth)));
    }
}
