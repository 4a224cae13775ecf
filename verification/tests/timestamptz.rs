use lolrepl::temporal::Zoned;
use lolrepl::value::parse_text_value;
use lolrepl::value::parse_timestamptz;
use lolrepl::value::Value;
use lolrepl::value::PG_TYPE_TIMESTAMPTZ;

/// The `jiff` value that the fields of a decoded timestamp stand for.
fn to_jiff(z: &Zoned) -> jiff::Zoned {
    let d = z.datetime;
    let local = jiff::civil::DateTime::new(
        d.date.year,
        d.date.month,
        d.date.day,
        d.time.hour,
        d.time.minute,
        d.time.second,
        d.time.subsec_nanosecond,
    )
    .unwrap();
    let offset = jiff::tz::Offset::from_seconds(z.offset_seconds).unwrap();
    offset
        .to_timestamp(local)
        .unwrap()
        .to_zoned(jiff::tz::TimeZone::fixed(offset))
}

#[test]
fn test_parse_timestamptz_whole_hour_positive() {
    let result = parse_timestamptz("2023-12-25 14:30:45.123456+01");
    assert!(result.is_ok());
    let dt = to_jiff(&result.unwrap());
    assert_eq!(dt.to_string(), "2023-12-25T14:30:45.123456+01:00[+01:00]");
}

#[test]
fn test_parse_timestamptz_whole_hour_negative() {
    let result = parse_timestamptz("2023-12-25 14:30:45.123456-05");
    assert!(result.is_ok());
    let dt = to_jiff(&result.unwrap());
    assert_eq!(dt.to_string(), "2023-12-25T14:30:45.123456-05:00[-05:00]");
}

#[test]
fn test_parse_timestamptz_indian_timezone() {
    let result = parse_timestamptz("2023-11-12 19:30:00.000000+05:30");
    assert!(result.is_ok());
    let dt = to_jiff(&result.unwrap());
    assert_eq!(dt.to_string(), "2023-11-12T19:30:00+05:30[+05:30]");
}

#[test]
fn test_parse_timestamptz_negative_half_hour() {
    let result = parse_timestamptz("2023-11-12 19:30:00.000000-03:30");
    assert!(result.is_ok());
    let dt = to_jiff(&result.unwrap());
    assert_eq!(dt.to_string(), "2023-11-12T19:30:00-03:30[-03:30]");
}

#[test]
fn test_parse_timestamptz_without_microseconds() {
    let result = parse_timestamptz("2023-12-25 14:30:45+01");
    assert!(result.is_ok());
    let dt = to_jiff(&result.unwrap());
    assert_eq!(dt.to_string(), "2023-12-25T14:30:45+01:00[+01:00]");
}

#[test]
fn test_parse_timestamptz_utc() {
    let result = parse_timestamptz("2023-12-25 14:30:45.123456+00");
    assert!(result.is_ok());
    let dt = to_jiff(&result.unwrap());
    assert_eq!(dt.to_string(), "2023-12-25T14:30:45.123456+00:00[UTC]");
}

#[test]
fn test_parse_timestamptz_various_minute_offsets() {
    let test_cases = vec![
        ("2023-01-01 12:00:00+04:30", "+04:30"),
        ("2023-01-01 12:00:00+09:30", "+09:30"),
        ("2023-01-01 12:00:00-02:15", "-02:15"),
        ("2023-01-01 12:00:00+14:00", "+14:00"),
    ];

    for (input, expected_tz) in test_cases {
        let result = parse_timestamptz(input);
        assert!(result.is_ok(), "Failed to parse: {}", input);
        let dt = to_jiff(&result.unwrap());
        assert!(
            dt.to_string().contains(expected_tz),
            "Expected timezone {} in {}",
            expected_tz,
            dt.to_string()
        );
    }
}

#[test]
fn test_parse_timestamptz_short_text() {
    let result = parse_timestamptz("ab");
    assert!(result.is_err());
}

#[test]
fn test_parse_timestamptz_invalid_format() {
    let result = parse_timestamptz("not-a-timestamp+01");
    assert!(result.is_err());
}

#[test]
fn test_parse_timestamptz_no_timezone() {
    let result = parse_timestamptz("2023-12-25 14:30:45.123456");
    assert!(result.is_err());
}

#[test]
fn test_parse_timestamptz_unknown_timezone_format() {
    let result = parse_timestamptz("2023-12-25 14:30:45.123456+1234");
    assert!(result.is_ok());
}

#[test]
fn test_parse_text_value_timestamptz_integration() {
    let test_cases = vec![
        "2023-12-25 14:30:45.123456+01",
        "2023-11-12 19:30:00.000000+05:30",
        "2023-12-25 14:30:45.123456-05",
    ];

    for input in test_cases {
        let result = parse_text_value(input, PG_TYPE_TIMESTAMPTZ);
        assert!(
            result.is_ok(),
            "Failed to parse via parse_text_value: {}",
            input
        );
        match result.unwrap() {
            Value::TimestampTz(_) => {}
            other => panic!("Expected TimestampTz, got: {:?}", other),
        }
    }
}

#[test]
fn timestamptz_fields_of_whole_hour_offset() {
    let z = parse_timestamptz("2023-12-25 14:30:45.123456+01").unwrap();
    assert_eq!(z.offset_seconds, 3600);
    assert_eq!(z.datetime.date.year, 2023);
    assert_eq!(z.datetime.date.month, 12);
    assert_eq!(z.datetime.date.day, 25);
    assert_eq!(z.datetime.time.hour, 14);
    assert_eq!(z.datetime.time.minute, 30);
    assert_eq!(z.datetime.time.second, 45);
    assert_eq!(z.datetime.time.subsec_nanosecond, 123_456_000);
}

#[test]
fn timestamptz_fields_of_half_hour_offset() {
    let z = parse_timestamptz("2023-11-12 19:30:00.000000+05:30").unwrap();
    assert_eq!(z.offset_seconds, 5 * 3600 + 30 * 60);
    assert_eq!(z.datetime.time.hour, 19);
    assert_eq!(z.datetime.time.subsec_nanosecond, 0);
}

#[test]
fn timestamptz_with_a_long_prefix_is_an_error_not_a_crash() {
    let mut text = String::new();
    for _ in 0..400 {
        text.push('9');
    }
    text.push_str("+01");
    assert!(parse_timestamptz(&text).is_err());
}

#[test]
fn timestamptz_with_a_colon_after_a_wide_character_is_an_error() {
    // Six bytes behind the sign, and the fourth character is a colon.
    assert!(parse_timestamptz("2023-12-25 14:30:45+\u{e9}1:3").is_err());
}
