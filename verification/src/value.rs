//! Column values: the tagged value, and its decoding from the text and the
//! binary form under a type OID.

use crate::error::Error;
use crate::error::ErrorView;
use crate::error::outcome;
use crate::error::outcome_view;
use crate::hexcode::hex_decode;
use crate::hexcode::hex_string;
use crate::hexcode::spec_hex_decode;
use crate::hexcode::is_lower_hex_digit;
use crate::hexcode::lemma_hex_string_chars;
use crate::hexcode::push_hex;
use crate::number::check_float;
use crate::number::MINUS;
use crate::number::PLUS;
use crate::number::ZERO;
use crate::number::parse_int;
use crate::number::spec_check_float;
use crate::number::spec_parse_int;
use crate::number::spec_render_int;
use crate::temporal::Date;
use crate::temporal::date_format;
use crate::temporal::date_plus_days;
use crate::temporal::DateTime;
use crate::temporal::datetime_plus_microseconds;
use crate::temporal::jiff_date_plus_days;
use crate::temporal::jiff_datetime_plus_microseconds;
use crate::temporal::jiff_strptime_date;
use crate::temporal::jiff_strptime_datetime;
use crate::temporal::jiff_strptime_time;
use crate::temporal::jiff_strptime_zoned;
use crate::temporal::jiff_utc_plus_microseconds;
use crate::temporal::pg_epoch;
use crate::temporal::pg_epoch_date;
use crate::temporal::spec_pg_epoch;
use crate::temporal::spec_pg_epoch_date;
use crate::temporal::strptime_date;
use crate::temporal::strptime_datetime;
use crate::temporal::strptime_time;
use crate::temporal::strptime_zoned;
use crate::temporal::Time;
use crate::temporal::time_format;
use crate::temporal::time_new;
use crate::temporal::timestamp_format;
use crate::temporal::timestamptz_format;
use crate::temporal::utc_plus_microseconds;
use crate::temporal::Zoned;
use crate::text::ascii_chars;
use crate::text::ascii_to_string;
use crate::text::copy_bytes;
use crate::text::int_to_string;
use crate::text::is_ascii_bytes;
use crate::text::lemma_ascii_is_utf8;
use crate::text::message_with;
use crate::text::str_from_utf8;
use crate::text::uint_to_string;
use crate::wire::be_u16;
use crate::wire::be_u32;
use crate::wire::be_u64;
use crate::wire::i16_from_bits;
use crate::wire::i32_from_bits;
use crate::wire::i64_from_bits;
use crate::wire::signed16;
use crate::wire::signed32;
use crate::wire::signed64;
use crate::wire::u16_from_be;
use crate::wire::u32_from_be;
use crate::wire::u64_from_be;
use vstd::prelude::*;
use vstd::string::StringExecFns;
use vstd::string::StrSliceExecFns;
use vstd::utf8::*;

verus! {

/// The text of the boolean `true`, `t`.
pub const BOOL_TRUE: u8 = 0x74;

/// The text of the boolean `false`, `f`.
pub const BOOL_FALSE: u8 = 0x66;

/// The first byte of the prefix of `bytea` in text, a backslash.
pub const BYTEA_BACKSLASH: u8 = 0x5c;

/// The second byte of the prefix of `bytea` in text, `x`.
pub const BYTEA_X: u8 = 0x78;

/// The type OID of `bool`.
pub const PG_TYPE_BOOL: u32 = 16;

/// The type OID of `bytea`.
pub const PG_TYPE_BYTEA: u32 = 17;

/// The type OID of `char`.
pub const PG_TYPE_CHAR: u32 = 18;

/// The type OID of `name`.
pub const PG_TYPE_NAME: u32 = 19;

/// The type OID of `int8`.
pub const PG_TYPE_INT8: u32 = 20;

/// The type OID of `int2`.
pub const PG_TYPE_INT2: u32 = 21;

/// The type OID of `int4`.
pub const PG_TYPE_INT4: u32 = 23;

/// The type OID of `text`.
pub const PG_TYPE_TEXT: u32 = 25;

/// The type OID of `oid`.
pub const PG_TYPE_OID: u32 = 26;

/// The type OID of `json`.
pub const PG_TYPE_JSON: u32 = 114;

/// The type OID of `float4`.
pub const PG_TYPE_FLOAT4: u32 = 700;

/// The type OID of `float8`.
pub const PG_TYPE_FLOAT8: u32 = 701;

/// The type OID of `bpchar`.
pub const PG_TYPE_BPCHAR: u32 = 1042;

/// The type OID of `varchar`.
pub const PG_TYPE_VARCHAR: u32 = 1043;

/// The type OID of `date`.
pub const PG_TYPE_DATE: u32 = 1082;

/// The type OID of `time`.
pub const PG_TYPE_TIME: u32 = 1083;

/// The type OID of `timestamp`.
pub const PG_TYPE_TIMESTAMP: u32 = 1114;

/// The type OID of `timestamptz`.
pub const PG_TYPE_TIMESTAMPTZ: u32 = 1184;

/// The type OID of `numeric`.
pub const PG_TYPE_NUMERIC: u32 = 1700;

/// The type OID of `uuid`.
pub const PG_TYPE_UUID: u32 = 2950;

/// The type OID of `jsonb`.
pub const PG_TYPE_JSONB: u32 = 3802;

/// A binary floating-point number as it came over the wire: the bits of its
/// IEEE 754 encoding (four bytes fill the low half), or its text, which is
/// then a floating-point literal. Turning either into a number is left to
/// the caller.
#[derive(Debug, Clone, PartialEq, Eq)]
pub enum Real {
    /// The IEEE 754 bit pattern, from the binary format.
    Bits(u64),
    /// The text as the server wrote it.
    Text(String),
}

/// The mathematical content of a [`Real`].
pub enum RealView {
    Bits(u64),
    Text(Seq<char>),
}

impl View for Real {
    type V = RealView;

    open spec fn view(&self) -> RealView {
        match *self {
            Real::Bits(b) => RealView::Bits(b),
            Real::Text(t) => RealView::Text(t@),
        }
    }
}

/// One column value, tagged by kind.
#[derive(Debug, Clone, PartialEq, Eq)]
pub enum Value {
    /// Character data (`text`, `varchar`, `char`, `name`, `bpchar`).
    Text(String),
    /// A 32-bit integer (`int2`, `int4`, `oid`).
    Integer(i32),
    /// A 64-bit integer (`int8`).
    BigInt(i64),
    /// A 32-bit floating-point number (`float4`).
    Float(Real),
    /// A 64-bit floating-point number (`float8`, and `numeric` read as one).
    Double(Real),
    /// A truth value.
    Boolean(bool),
    /// A date without time.
    Date(Date),
    /// A time without date.
    Time(Time),
    /// A timestamp without time zone.
    Timestamp(DateTime),
    /// A timestamp with its offset from UTC.
    TimestampTz(Zoned),
    /// A UUID in its canonical text form.
    Uuid(String),
    /// JSON, as text.
    Json(String),
    /// JSONB, as text.
    Jsonb(String),
    /// Raw bytes (`bytea`).
    Binary(Vec<u8>),
    /// SQL NULL.
    Null,
    /// A value of a type that is not decoded: its bytes and its type OID.
    Unknown(Vec<u8>, u32),
}

/// The mathematical content of a [`Value`].
pub enum ValueView {
    Text(Seq<char>),
    Integer(i32),
    BigInt(i64),
    Float(RealView),
    Double(RealView),
    Boolean(bool),
    Date(Date),
    Time(Time),
    Timestamp(DateTime),
    TimestampTz(Zoned),
    Uuid(Seq<char>),
    Json(Seq<char>),
    Jsonb(Seq<char>),
    Binary(Seq<u8>),
    Null,
    Unknown(Seq<u8>, u32),
}

impl View for Value {
    type V = ValueView;

    open spec fn view(&self) -> ValueView {
        match *self {
            Value::Text(s) => ValueView::Text(s@),
            Value::Integer(i) => ValueView::Integer(i),
            Value::BigInt(i) => ValueView::BigInt(i),
            Value::Float(x) => ValueView::Float(x@),
            Value::Double(x) => ValueView::Double(x@),
            Value::Boolean(b) => ValueView::Boolean(b),
            Value::Date(d) => ValueView::Date(d),
            Value::Time(t) => ValueView::Time(t),
            Value::Timestamp(t) => ValueView::Timestamp(t),
            Value::TimestampTz(t) => ValueView::TimestampTz(t),
            Value::Uuid(s) => ValueView::Uuid(s@),
            Value::Json(s) => ValueView::Json(s@),
            Value::Jsonb(s) => ValueView::Jsonb(s@),
            Value::Binary(b) => ValueView::Binary(b@),
            Value::Null => ValueView::Null,
            Value::Unknown(b, oid) => ValueView::Unknown(b@, oid),
        }
    }
}

/// True for the type OIDs whose values are character data.
pub open spec fn is_text_type(type_id: u32) -> bool {
    type_id == PG_TYPE_TEXT || type_id == PG_TYPE_VARCHAR || type_id == PG_TYPE_CHAR || type_id
        == PG_TYPE_NAME || type_id == PG_TYPE_BPCHAR
}

/// True for the bytes `+` and `-`.
pub open spec fn is_sign(b: u8) -> bool {
    b == PLUS || b == MINUS
}

/// The position of the last `+` or `-`, if there is one.
pub open spec fn last_sign(bytes: Seq<u8>) -> Option<int>
    decreases bytes.len(),
{
    if bytes.len() == 0 {
        None
    } else if is_sign(bytes.last()) {
        Some(bytes.len() - 1)
    } else {
        last_sign(bytes.drop_last())
    }
}

/// The time zone suffix brought to the form `±HHMM`: `±HH` gets two zeros,
/// `±HH:MM` loses its colon, anything else stays as it is. A suffix has the
/// form `±HH:MM` when it is six bytes long and its fourth character is a
/// colon.
pub open spec fn normalized_zone(zone: Seq<u8>) -> Seq<u8> {
    if zone.len() == 6 && valid_utf8(zone) && decode_utf8(zone).len() > 3 && decode_utf8(zone)[3]
        == ':' {
        seq![zone[0], zone[1], zone[2], zone[4], zone[5]]
    } else if zone.len() == 3 {
        seq![zone[0], zone[1], zone[2], ZERO, ZERO]
    } else {
        zone
    }
}

/// The bytes that are parsed in place of a timestamp with time zone: the
/// text itself where it is shorter than three bytes or has no sign, else the
/// text with what begins at its last sign normalised.
pub open spec fn normalized_timestamptz(bytes: Seq<u8>) -> Seq<u8> {
    if bytes.len() < 3 {
        bytes
    } else {
        match last_sign(bytes) {
            None => bytes,
            Some(k) => bytes.take(k) + normalized_zone(bytes.skip(k)),
        }
    }
}

/// What [`parse_timestamptz`] makes of `text`.
pub open spec fn spec_parse_timestamptz(text: Seq<char>) -> Result<Zoned, ErrorView> {
    let normalized = normalized_timestamptz(encode_utf8(text));
    if !valid_utf8(normalized) {
        Err(ErrorView::ParseValue("Invalid UTF-8 in normalized timestamp"@))
    } else {
        match jiff_strptime_zoned(timestamptz_format(), decode_utf8(normalized)) {
            Ok(z) => Ok(z),
            Err(said) => Err(ErrorView::ParseDateTime(said)),
        }
    }
}

/// What [`parse_text_value`] makes of `text` for a column of type
/// `type_id`.
pub open spec fn spec_parse_text(text: Seq<char>, type_id: u32) -> Result<ValueView, ErrorView> {
    let bytes = encode_utf8(text);
    if type_id == PG_TYPE_BOOL {
        if bytes == seq![BOOL_TRUE] {
            Ok(ValueView::Boolean(true))
        } else if bytes == seq![BOOL_FALSE] {
            Ok(ValueView::Boolean(false))
        } else {
            Err(ErrorView::ParseValue("Invalid boolean value: "@ + text))
        }
    } else if type_id == PG_TYPE_INT2 || type_id == PG_TYPE_INT4 {
        match spec_parse_int(bytes, i32::MIN as int, i32::MAX as int) {
            Ok(n) => Ok(ValueView::Integer(n as i32)),
            Err(k) => Err(ErrorView::ParseInt(k)),
        }
    } else if type_id == PG_TYPE_INT8 {
        match spec_parse_int(bytes, i64::MIN as int, i64::MAX as int) {
            Ok(n) => Ok(ValueView::BigInt(n as i64)),
            Err(k) => Err(ErrorView::ParseInt(k)),
        }
    } else if type_id == PG_TYPE_FLOAT4 {
        match spec_check_float(bytes) {
            Ok(_) => Ok(ValueView::Float(RealView::Text(text))),
            Err(k) => Err(ErrorView::ParseFloat(k)),
        }
    } else if type_id == PG_TYPE_FLOAT8 || type_id == PG_TYPE_NUMERIC {
        match spec_check_float(bytes) {
            Ok(_) => Ok(ValueView::Double(RealView::Text(text))),
            Err(k) => Err(ErrorView::ParseFloat(k)),
        }
    } else if type_id == PG_TYPE_UUID {
        Ok(ValueView::Uuid(text))
    } else if type_id == PG_TYPE_JSON {
        Ok(ValueView::Json(text))
    } else if type_id == PG_TYPE_JSONB {
        Ok(ValueView::Jsonb(text))
    } else if is_text_type(type_id) {
        Ok(ValueView::Text(text))
    } else if type_id == PG_TYPE_BYTEA {
        if bytes.len() >= 2 && bytes[0] == BYTEA_BACKSLASH && bytes[1] == BYTEA_X {
            match spec_hex_decode(bytes.skip(2)) {
                Ok(decoded) => Ok(ValueView::Binary(decoded)),
                Err(e) => Err(ErrorView::HexDecode(e)),
            }
        } else {
            Err(ErrorView::ParseValue("Invalid bytea format: "@ + text))
        }
    } else if type_id == PG_TYPE_DATE {
        match jiff_strptime_date(date_format(), text) {
            Ok(d) => Ok(ValueView::Date(d)),
            Err(said) => Err(ErrorView::ParseDateTime(said)),
        }
    } else if type_id == PG_TYPE_TIMESTAMP {
        match jiff_strptime_datetime(timestamp_format(), text) {
            Ok(d) => Ok(ValueView::Timestamp(d)),
            Err(said) => Err(ErrorView::ParseDateTime(said)),
        }
    } else if type_id == PG_TYPE_TIMESTAMPTZ {
        match spec_parse_timestamptz(text) {
            Ok(z) => Ok(ValueView::TimestampTz(z)),
            Err(e) => Err(e),
        }
    } else if type_id == PG_TYPE_TIME {
        match jiff_strptime_time(time_format(), text) {
            Ok(t) => Ok(ValueView::Time(t)),
            Err(said) => Err(ErrorView::ParseDateTime(said)),
        }
    } else if type_id == PG_TYPE_OID {
        match spec_parse_int(bytes, 0, u32::MAX as int) {
            Ok(n) => Ok(ValueView::Integer(signed32(n) as i32)),
            Err(k) => Err(ErrorView::ParseInt(k)),
        }
    } else {
        Err(
            ErrorView::ParseValue(
                "Unknown type_id: "@ + ascii_chars(spec_render_int(type_id as int)),
            ),
        )
    }
}

/// A position with a sign at it and none behind it is where [`last_sign`]
/// points; with no sign anywhere there is none.
pub proof fn lemma_last_sign(bytes: Seq<u8>, k: int)
    requires
        -1 <= k < bytes.len(),
        k >= 0 ==> is_sign(bytes[k]),
        forall|j: int| k < j < bytes.len() ==> !is_sign(bytes[j]),
    ensures
        last_sign(bytes) == if k >= 0 {
            Some(k)
        } else {
            None::<int>
        },
    decreases bytes.len(),
{
    if bytes.len() > 0 && k < bytes.len() - 1 {
        let front = bytes.drop_last();
        lemma_last_sign(front, k);
    }
}

/// Brings the time zone suffix of a timestamp to the form `±HHMM`: see
/// [`normalized_timestamptz`].
pub fn normalize_timestamptz(bytes: &[u8]) -> (r: Vec<u8>)
    ensures
        r@ == normalized_timestamptz(bytes@),
{
    let mut k: usize = bytes.len();
    while k > 0 && !(bytes[k - 1] == PLUS || bytes[k - 1] == MINUS)
        invariant
            k <= bytes@.len(),
            forall|j: int| k <= j < bytes@.len() ==> !is_sign(bytes@[j]),
        decreases k,
    {
        k = k - 1;
    }
    proof {
        lemma_last_sign(bytes@, k as int - 1);
    }
    let mut normalized: Vec<u8> = Vec::new();
    if bytes.len() < 3 || k == 0 {
        normalized.extend_from_slice(bytes);
        assert(normalized@ =~= bytes@);
        return normalized;
    }
    let start: usize = k - 1;
    let zone = &bytes[start..bytes.len()];
    assert(zone@ =~= bytes@.skip(start as int));
    normalized.extend_from_slice(&bytes[0..start]);
    assert(normalized@ =~= bytes@.take(start as int));
    let colon_form = zone.len() == 6 && match str_from_utf8(zone) {
        Ok(z) => {
            proof {
                encode_utf8_decode_utf8(z@);
            }
            z.unicode_len() > 3 && z.get_char(3) == ':'
        },
        Err(_) => false,
    };
    if colon_form {
        normalized.push(zone[0]);
        normalized.push(zone[1]);
        normalized.push(zone[2]);
        normalized.push(zone[4]);
        normalized.push(zone[5]);
    } else if zone.len() == 3 {
        normalized.push(zone[0]);
        normalized.push(zone[1]);
        normalized.push(zone[2]);
        normalized.push(ZERO);
        normalized.push(ZERO);
    } else {
        normalized.extend_from_slice(zone);
    }
    assert(normalized@ =~= normalized_timestamptz(bytes@));
    normalized
}

/// Reads a timestamp with time zone. The server writes the offset as `±HH`,
/// `±HH:MM` or `±HHMM`; the first two are brought to the third before `jiff`
/// reads the text.
pub fn parse_timestamptz(text: &str) -> (r: Result<Zoned, Error>)
    ensures
        outcome(r) == spec_parse_timestamptz(text@),
{
    let normalized = normalize_timestamptz(text.as_bytes());
    match str_from_utf8(normalized.as_slice()) {
        Err(_) => Err(Error::ParseValue("Invalid UTF-8 in normalized timestamp".to_owned())),
        Ok(s) => {
            proof {
                encode_utf8_decode_utf8(s@);
            }
            match strptime_zoned("%Y-%m-%d %H:%M:%S%.f%z", s) {
                Ok(z) => Ok(z),
                Err(e) => Err(Error::ParseDateTime(e)),
            }
        },
    }
}

/// Decodes a column value from its text form.
pub fn parse_text_value(text: &str, type_id: u32) -> (r: Result<Value, Error>)
    ensures
        outcome_view(r) == spec_parse_text(text@, type_id),
{
    let bytes = text.as_bytes();
    if type_id == PG_TYPE_BOOL {
        if bytes.len() == 1 && bytes[0] == BOOL_TRUE {
            assert(bytes@ =~= seq![BOOL_TRUE]);
            Ok(Value::Boolean(true))
        } else if bytes.len() == 1 && bytes[0] == BOOL_FALSE {
            assert(bytes@ =~= seq![BOOL_FALSE]);
            Ok(Value::Boolean(false))
        } else {
            Err(Error::ParseValue(message_with("Invalid boolean value: ", text)))
        }
    } else if type_id == PG_TYPE_INT2 || type_id == PG_TYPE_INT4 {
        match parse_int(bytes, i32::MIN as i128, i32::MAX as i128) {
            Ok(n) => Ok(Value::Integer(n as i32)),
            Err(k) => Err(Error::ParseInt(k)),
        }
    } else if type_id == PG_TYPE_INT8 {
        match parse_int(bytes, i64::MIN as i128, i64::MAX as i128) {
            Ok(n) => Ok(Value::BigInt(n as i64)),
            Err(k) => Err(Error::ParseInt(k)),
        }
    } else if type_id == PG_TYPE_FLOAT4 {
        match check_float(bytes) {
            Ok(_) => Ok(Value::Float(Real::Text(text.to_owned()))),
            Err(k) => Err(Error::ParseFloat(k)),
        }
    } else if type_id == PG_TYPE_FLOAT8 || type_id == PG_TYPE_NUMERIC {
        match check_float(bytes) {
            Ok(_) => Ok(Value::Double(Real::Text(text.to_owned()))),
            Err(k) => Err(Error::ParseFloat(k)),
        }
    } else if type_id == PG_TYPE_UUID {
        Ok(Value::Uuid(text.to_owned()))
    } else if type_id == PG_TYPE_JSON {
        Ok(Value::Json(text.to_owned()))
    } else if type_id == PG_TYPE_JSONB {
        Ok(Value::Jsonb(text.to_owned()))
    } else if type_id == PG_TYPE_TEXT || type_id == PG_TYPE_VARCHAR || type_id == PG_TYPE_CHAR
        || type_id == PG_TYPE_NAME || type_id == PG_TYPE_BPCHAR {
        Ok(Value::Text(text.to_owned()))
    } else if type_id == PG_TYPE_BYTEA {
        if bytes.len() >= 2 && bytes[0] == BYTEA_BACKSLASH && bytes[1] == BYTEA_X {
            let digits = &bytes[2..bytes.len()];
            assert(digits@ =~= bytes@.skip(2));
            match hex_decode(digits) {
                Ok(decoded) => Ok(Value::Binary(decoded)),
                Err(e) => Err(Error::HexDecode(e)),
            }
        } else {
            Err(Error::ParseValue(message_with("Invalid bytea format: ", text)))
        }
    } else if type_id == PG_TYPE_DATE {
        match strptime_date("%Y-%m-%d", text) {
            Ok(d) => Ok(Value::Date(d)),
            Err(e) => Err(Error::ParseDateTime(e)),
        }
    } else if type_id == PG_TYPE_TIMESTAMP {
        match strptime_datetime("%Y-%m-%d %H:%M:%S%.f", text) {
            Ok(d) => Ok(Value::Timestamp(d)),
            Err(e) => Err(Error::ParseDateTime(e)),
        }
    } else if type_id == PG_TYPE_TIMESTAMPTZ {
        match parse_timestamptz(text) {
            Ok(z) => Ok(Value::TimestampTz(z)),
            Err(e) => Err(e),
        }
    } else if type_id == PG_TYPE_TIME {
        match strptime_time("%H:%M:%S%.f", text) {
            Ok(t) => Ok(Value::Time(t)),
            Err(e) => Err(Error::ParseDateTime(e)),
        }
    } else if type_id == PG_TYPE_OID {
        match parse_int(bytes, 0, u32::MAX as i128) {
            Ok(n) => Ok(Value::Integer(i32_from_bits(n as u32))),
            Err(k) => Err(Error::ParseInt(k)),
        }
    } else {
        Err(Error::ParseValue(message_with("Unknown type_id: ", int_to_string(type_id as i64).as_str())))
    }
}

/// The canonical text of a UUID: the hexadecimal digits of its sixteen
/// bytes in groups of 8, 4, 4, 4 and 12, with hyphens between the groups.
pub open spec fn uuid_text(bytes: Seq<u8>) -> Seq<u8> {
    hex_string(bytes.subrange(0, 4)) + seq![MINUS] + hex_string(bytes.subrange(4, 6))
        + seq![MINUS] + hex_string(bytes.subrange(6, 8)) + seq![MINUS] + hex_string(
        bytes.subrange(8, 10),
    ) + seq![MINUS] + hex_string(bytes.subrange(10, 16))
}

/// True for the digits and the letters `a` to `f`.
pub open spec fn is_lower_hex_char(c: char) -> bool {
    ('0' <= c <= '9') || ('a' <= c <= 'f')
}

/// True for 36 characters that are lowercase hexadecimal digits but for the
/// hyphens at positions 8, 13, 18 and 23.
pub open spec fn is_canonical_uuid(s: Seq<char>) -> bool {
    &&& s.len() == 36
    &&& forall|i: int|
        0 <= i < 36 ==> if i == 8 || i == 13 || i == 18 || i == 23 {
            #[trigger] s[i] == '-'
        } else {
            is_lower_hex_char(s[i])
        }
}

/// The last microsecond of a day, counted from midnight.
pub const LAST_MICROSECOND_OF_DAY: i64 = 86_399_999_999;

/// The time of day that a count of microseconds since midnight stands for.
/// A count that is negative, or a whole day or more, stands for none.
pub open spec fn spec_time_of_microseconds(microseconds: int) -> Option<Time> {
    if 0 <= microseconds <= LAST_MICROSECOND_OF_DAY {
        Some(
            Time {
                hour: (microseconds / 3_600_000_000) as i8,
                minute: (microseconds / 60_000_000 % 60) as i8,
                second: (microseconds / 1_000_000 % 60) as i8,
                subsec_nanosecond: (microseconds % 1_000_000 * 1000) as i32,
            },
        )
    } else {
        None
    }
}

/// The text of `data` under `tag` where it is UTF-8, the bytes themselves
/// where it is not.
pub open spec fn spec_text_or_binary(data: Seq<u8>, type_id: u32) -> ValueView {
    if !valid_utf8(data) {
        ValueView::Binary(data)
    } else if type_id == PG_TYPE_JSON {
        ValueView::Json(decode_utf8(data))
    } else if type_id == PG_TYPE_JSONB {
        ValueView::Jsonb(decode_utf8(data))
    } else {
        ValueView::Text(decode_utf8(data))
    }
}

/// The decoded value where there is one, else the bytes under their type.
pub open spec fn spec_or_unknown(found: Option<ValueView>, data: Seq<u8>, type_id: u32) -> ValueView {
    match found {
        Some(v) => v,
        None => ValueView::Unknown(data, type_id),
    }
}

/// What [`parse_binary_value`] makes of `data` for a column of type
/// `type_id` whose field has the declared length `len`. Fixed-width types
/// are decoded only at their own length; dates and timestamps count from
/// 2000-01-01; what cannot be decoded is kept as bytes.
pub open spec fn spec_parse_binary(data: Seq<u8>, type_id: u32, len: i32) -> ValueView {
    let unknown = ValueView::Unknown(data, type_id);
    if type_id == PG_TYPE_BOOL {
        if len == 1 && data.len() >= 1 {
            ValueView::Boolean(data[0] != 0)
        } else {
            unknown
        }
    } else if type_id == PG_TYPE_INT2 {
        if len == 2 && data.len() >= 2 {
            ValueView::Integer(signed16(be_u16(data)) as i32)
        } else {
            unknown
        }
    } else if type_id == PG_TYPE_INT4 || type_id == PG_TYPE_OID {
        if len == 4 && data.len() >= 4 {
            ValueView::Integer(signed32(be_u32(data)) as i32)
        } else {
            unknown
        }
    } else if type_id == PG_TYPE_INT8 {
        if len == 8 && data.len() >= 8 {
            ValueView::BigInt(signed64(be_u64(data)) as i64)
        } else {
            unknown
        }
    } else if type_id == PG_TYPE_FLOAT4 {
        if len == 4 && data.len() >= 4 {
            ValueView::Float(RealView::Bits(be_u32(data) as u64))
        } else {
            unknown
        }
    } else if type_id == PG_TYPE_FLOAT8 {
        if len == 8 && data.len() >= 8 {
            ValueView::Double(RealView::Bits(be_u64(data) as u64))
        } else {
            unknown
        }
    } else if type_id == PG_TYPE_BYTEA {
        ValueView::Binary(data)
    } else if is_text_type(type_id) || type_id == PG_TYPE_JSON || type_id == PG_TYPE_JSONB {
        spec_text_or_binary(data, type_id)
    } else if type_id == PG_TYPE_UUID {
        if len == 16 && data.len() >= 16 {
            ValueView::Uuid(ascii_chars(uuid_text(data)))
        } else {
            unknown
        }
    } else if type_id == PG_TYPE_DATE {
        if len == 4 && data.len() >= 4 {
            match jiff_date_plus_days(spec_pg_epoch_date(), signed32(be_u32(data))) {
                Some(d) => ValueView::Date(d),
                None => unknown,
            }
        } else {
            unknown
        }
    } else if type_id == PG_TYPE_TIMESTAMP {
        if len == 8 && data.len() >= 8 {
            match jiff_datetime_plus_microseconds(spec_pg_epoch(), signed64(be_u64(data))) {
                Some(d) => ValueView::Timestamp(d),
                None => unknown,
            }
        } else {
            unknown
        }
    } else if type_id == PG_TYPE_TIMESTAMPTZ {
        if len == 8 && data.len() >= 8 {
            match jiff_utc_plus_microseconds(spec_pg_epoch(), signed64(be_u64(data))) {
                Some(d) => ValueView::TimestampTz(Zoned { datetime: d, offset_seconds: 0 }),
                None => unknown,
            }
        } else {
            unknown
        }
    } else if type_id == PG_TYPE_TIME {
        if len == 8 && data.len() >= 8 {
            match spec_time_of_microseconds(signed64(be_u64(data))) {
                Some(t) => ValueView::Time(t),
                None => unknown,
            }
        } else {
            unknown
        }
    } else {
        unknown
    }
}

/// The text of a UUID is ASCII, 36 bytes long.
pub proof fn lemma_uuid_text_shape(bytes: Seq<u8>)
    requires
        bytes.len() >= 16,
    ensures
        uuid_text(bytes).len() == 36,
        is_ascii_bytes(uuid_text(bytes)),
        forall|i: int|
            0 <= i < 36 ==> if i == 8 || i == 13 || i == 18 || i == 23 {
                #[trigger] uuid_text(bytes)[i] == MINUS
            } else {
                is_lower_hex_digit(uuid_text(bytes)[i])
            },
{
    lemma_hex_string_chars(bytes.subrange(0, 4));
    lemma_hex_string_chars(bytes.subrange(4, 6));
    lemma_hex_string_chars(bytes.subrange(6, 8));
    lemma_hex_string_chars(bytes.subrange(8, 10));
    lemma_hex_string_chars(bytes.subrange(10, 16));
    let a = hex_string(bytes.subrange(0, 4));
    let b = hex_string(bytes.subrange(4, 6));
    let c = hex_string(bytes.subrange(6, 8));
    let d = hex_string(bytes.subrange(8, 10));
    let e = hex_string(bytes.subrange(10, 16));
    let t = uuid_text(bytes);
    assert forall|i: int| 0 <= i < 36 implies if i == 8 || i == 13 || i == 18 || i == 23 {
        #[trigger] t[i] == MINUS
    } else {
        is_lower_hex_digit(t[i])
    } by {
        if i < 8 {
            assert(t[i] == a[i]);
        } else if i == 8 {
        } else if i < 13 {
            assert(t[i] == b[i - 9]);
        } else if i == 13 {
        } else if i < 18 {
            assert(t[i] == c[i - 14]);
        } else if i == 18 {
        } else if i < 23 {
            assert(t[i] == d[i - 19]);
        } else if i == 23 {
        } else {
            assert(t[i] == e[i - 24]);
        }
    }
}

/// Whatever the bytes and the declared length, a UUID that comes out of the
/// binary decoder is written as 36 characters: lowercase hexadecimal digits
/// in groups of 8, 4, 4, 4 and 12 with hyphens between them.
pub proof fn lemma_binary_uuid_is_canonical(data: Seq<u8>, len: i32)
    ensures
        spec_parse_binary(data, PG_TYPE_UUID, len) matches ValueView::Uuid(s)
            ==> is_canonical_uuid(s),
        len == 16 && data.len() >= 16 ==> spec_parse_binary(data, PG_TYPE_UUID, len)
            is Uuid,
{
    if len == 16 && data.len() >= 16 {
        lemma_uuid_text_is_canonical(data);
    }
}

/// The text of a UUID has the canonical form.
pub proof fn lemma_uuid_text_is_canonical(data: Seq<u8>)
    requires
        data.len() >= 16,
    ensures
        is_canonical_uuid(ascii_chars(uuid_text(data))),
{
    lemma_uuid_text_shape(data);
    let t = uuid_text(data);
    let s = ascii_chars(t);
    assert forall|i: int| 0 <= i < 36 implies if i == 8 || i == 13 || i == 18 || i == 23 {
        #[trigger] s[i] == '-'
    } else {
        is_lower_hex_char(s[i])
    } by {
        assert(s[i] == t[i] as char);
        if i == 8 || i == 13 || i == 18 || i == 23 {
            assert(t[i] == MINUS);
        } else {
            assert(is_lower_hex_digit(t[i]));
        }
    }
}

/// What [`Value::to_string`] writes for a value: its text for character
/// data, UUIDs and JSON; decimal digits for integers; `t` or `f` for a truth
/// value, as the text decoder reads them; `NULL`; a note of the length for raw bytes and of the type for what was
/// not decoded. Floating-point numbers and dates and times have no text here.
pub open spec fn spec_value_text(v: ValueView) -> Option<Seq<char>> {
    match v {
        ValueView::Text(s) => Some(s),
        ValueView::Integer(i) => Some(ascii_chars(spec_render_int(i as int))),
        ValueView::BigInt(i) => Some(ascii_chars(spec_render_int(i as int))),
        ValueView::Boolean(b) => Some(
            ascii_chars(
                seq![
                    if b {
                        BOOL_TRUE
                    } else {
                        BOOL_FALSE
                    },
                ],
            ),
        ),
        ValueView::Uuid(s) => Some(s),
        ValueView::Json(s) => Some(s),
        ValueView::Jsonb(s) => Some(s),
        ValueView::Binary(b) => Some(
            "<binary data: "@ + ascii_chars(spec_render_int(b.len() as int)) + " bytes>"@,
        ),
        ValueView::Null => Some("NULL"@),
        ValueView::Unknown(_, oid) => Some(
            "<unknown type: "@ + ascii_chars(spec_render_int(oid as int)) + ">"@,
        ),
        _ => None,
    }
}

/// True for the column types whose values, written out, are read back as
/// the same value: truth values, the integers, UUIDs, JSON, and character
/// data.
pub open spec fn reads_back_from_text(type_id: u32) -> bool {
    type_id == PG_TYPE_BOOL || type_id == PG_TYPE_INT2 || type_id == PG_TYPE_INT4 || type_id == PG_TYPE_INT8 || type_id
        == PG_TYPE_UUID || type_id == PG_TYPE_JSON || type_id == PG_TYPE_JSONB || is_text_type(
        type_id,
    )
}

/// A truth value, or a value of an integer, UUID, JSON or character type,
/// that was decoded from text has a text of its own, and decoding that text under the same type
/// gives the same value again.
pub proof fn lemma_text_round_trip(text: Seq<char>, type_id: u32)
    requires
        reads_back_from_text(type_id),
        spec_parse_text(text, type_id) is Ok,
    ensures
        spec_value_text(spec_parse_text(text, type_id)->Ok_0) is Some,
        spec_parse_text(spec_value_text(spec_parse_text(text, type_id)->Ok_0)->Some_0, type_id)
            == spec_parse_text(text, type_id),
{
    let v = spec_parse_text(text, type_id)->Ok_0;
    match v {
        ValueView::Integer(i) => {
            let digits = spec_render_int(i as int);
            crate::number::lemma_render_int_is_ascii(i as int);
            lemma_ascii_is_utf8(digits);
            crate::number::lemma_parse_render_int(i as int, i32::MIN as int, i32::MAX as int);
        },
        ValueView::BigInt(i) => {
            let digits = spec_render_int(i as int);
            crate::number::lemma_render_int_is_ascii(i as int);
            lemma_ascii_is_utf8(digits);
            crate::number::lemma_parse_render_int(i as int, i64::MIN as int, i64::MAX as int);
        },
        ValueView::Boolean(b) => {
            let letter = seq![
                if b {
                    BOOL_TRUE
                } else {
                    BOOL_FALSE
                },
            ];
            lemma_ascii_is_utf8(letter);
        },
        _ => {},
    }
}

impl Value {
    /// The text of the value, for the kinds of value that have one here: see
    /// [`spec_value_text`].
    pub fn to_string(&self) -> (r: Option<String>)
        ensures
            (match r {
                Some(t) => Some(t@),
                None => None,
            }) == spec_value_text(self@),
    {
        match self {
            Value::Text(s) => Some(s.clone()),
            Value::Integer(i) => Some(int_to_string(*i as i64)),
            Value::BigInt(i) => Some(int_to_string(*i)),
            Value::Boolean(b) => {
                let letter: [u8; 1] = [
                    if *b {
                        BOOL_TRUE
                    } else {
                        BOOL_FALSE
                    },
                ];
                assert(letter@ =~= seq![
                    if *b {
                        BOOL_TRUE
                    } else {
                        BOOL_FALSE
                    },
                ]);
                Some(ascii_to_string(letter.as_slice()))
            },
            Value::Uuid(s) => Some(s.clone()),
            Value::Json(s) => Some(s.clone()),
            Value::Jsonb(s) => Some(s.clone()),
            Value::Binary(b) => Some(
                message_with("<binary data: ", uint_to_string(b.len() as u64).as_str()).concat(
                    " bytes>",
                ),
            ),
            Value::Null => Some("NULL".to_owned()),
            Value::Unknown(_, oid) => Some(
                message_with("<unknown type: ", uint_to_string(*oid as u64).as_str()).concat(">"),
            ),
            _ => None,
        }
    }
}

/// The canonical text of the UUID in the first sixteen bytes.
pub fn format_uuid(bytes: &[u8]) -> (r: String)
    requires
        bytes@.len() >= 16,
    ensures
        r@ == ascii_chars(uuid_text(bytes@)),
{
    let mut buffer: Vec<u8> = Vec::new();
    push_hex(&mut buffer, &bytes[0..4]);
    buffer.push(MINUS);
    push_hex(&mut buffer, &bytes[4..6]);
    buffer.push(MINUS);
    push_hex(&mut buffer, &bytes[6..8]);
    buffer.push(MINUS);
    push_hex(&mut buffer, &bytes[8..10]);
    buffer.push(MINUS);
    push_hex(&mut buffer, &bytes[10..16]);
    proof {
        assert(buffer@ =~= uuid_text(bytes@));
        lemma_uuid_text_shape(bytes@);
    }
    ascii_to_string(buffer.as_slice())
}

/// The time of day that a count of microseconds since midnight stands for:
/// see [`spec_time_of_microseconds`].
pub fn time_of_microseconds(microseconds: i64) -> (r: Option<Time>)
    ensures
        r == spec_time_of_microseconds(microseconds as int),
{
    if microseconds < 0 || microseconds > LAST_MICROSECOND_OF_DAY {
        return None;
    }
    let hour: i8 = (microseconds / 3_600_000_000) as i8;
    let minute: i8 = (microseconds / 60_000_000 % 60) as i8;
    let second: i8 = (microseconds / 1_000_000 % 60) as i8;
    let nanos: i32 = (microseconds % 1_000_000 * 1000) as i32;
    time_new(hour, minute, second, nanos)
}

/// The text of `data` where it is UTF-8, the bytes themselves where it is
/// not: see [`spec_text_or_binary`].
pub fn text_or_binary(data: &[u8], type_id: u32) -> (r: Value)
    ensures
        r@ == spec_text_or_binary(data@, type_id),
{
    match str_from_utf8(data) {
        Ok(s) => {
            proof {
                encode_utf8_decode_utf8(s@);
            }
            if type_id == PG_TYPE_JSON {
                Value::Json(s.to_owned())
            } else if type_id == PG_TYPE_JSONB {
                Value::Jsonb(s.to_owned())
            } else {
                Value::Text(s.to_owned())
            }
        },
        Err(_) => Value::Binary(copy_bytes(data)),
    }
}

/// The decoded value where there is one, else the bytes kept under their
/// type OID.
pub fn or_unknown(found: Option<Value>, data: &[u8], type_id: u32) -> (r: Value)
    ensures
        r@ == spec_or_unknown(
            match found {
                Some(v) => Some(v@),
                None => None,
            },
            data@,
            type_id,
        ),
{
    match found {
        Some(v) => v,
        None => Value::Unknown(copy_bytes(data), type_id),
    }
}

/// Decodes a column value from its binary form. Never fails: what cannot be
/// decoded comes back as [`Value::Unknown`] or [`Value::Binary`].
pub fn parse_binary_value(binary_data: &[u8], type_id: u32, len: i32) -> (r: Result<Value, Error>)
    ensures
        r is Ok,
        r->Ok_0@ == spec_parse_binary(binary_data@, type_id, len),
{
    let n = binary_data.len();
    let value = if type_id == PG_TYPE_BOOL && len == 1 && n >= 1 {
        Value::Boolean(binary_data[0] != 0)
    } else if type_id == PG_TYPE_INT2 && len == 2 && n >= 2 {
        Value::Integer(i16_from_bits(u16_from_be(binary_data)) as i32)
    } else if (type_id == PG_TYPE_INT4 || type_id == PG_TYPE_OID) && len == 4 && n >= 4 {
        Value::Integer(i32_from_bits(u32_from_be(binary_data)))
    } else if type_id == PG_TYPE_INT8 && len == 8 && n >= 8 {
        Value::BigInt(i64_from_bits(u64_from_be(binary_data)))
    } else if type_id == PG_TYPE_FLOAT4 && len == 4 && n >= 4 {
        Value::Float(Real::Bits(u32_from_be(binary_data) as u64))
    } else if type_id == PG_TYPE_FLOAT8 && len == 8 && n >= 8 {
        Value::Double(Real::Bits(u64_from_be(binary_data)))
    } else if type_id == PG_TYPE_BYTEA {
        Value::Binary(copy_bytes(binary_data))
    } else if type_id == PG_TYPE_TEXT || type_id == PG_TYPE_VARCHAR || type_id == PG_TYPE_CHAR
        || type_id == PG_TYPE_NAME || type_id == PG_TYPE_BPCHAR || type_id == PG_TYPE_JSON
        || type_id == PG_TYPE_JSONB {
        text_or_binary(binary_data, type_id)
    } else if type_id == PG_TYPE_UUID && len == 16 && n >= 16 {
        Value::Uuid(format_uuid(binary_data))
    } else if type_id == PG_TYPE_DATE && len == 4 && n >= 4 {
        let days = i32_from_bits(u32_from_be(binary_data));
        let found = match date_plus_days(pg_epoch_date(), days) {
            Some(d) => Some(Value::Date(d)),
            None => None,
        };
        or_unknown(found, binary_data, type_id)
    } else if type_id == PG_TYPE_TIMESTAMP && len == 8 && n >= 8 {
        let microseconds = i64_from_bits(u64_from_be(binary_data));
        let found = match datetime_plus_microseconds(pg_epoch(), microseconds) {
            Some(d) => Some(Value::Timestamp(d)),
            None => None,
        };
        or_unknown(found, binary_data, type_id)
    } else if type_id == PG_TYPE_TIMESTAMPTZ && len == 8 && n >= 8 {
        let microseconds = i64_from_bits(u64_from_be(binary_data));
        let found = match utc_plus_microseconds(pg_epoch(), microseconds) {
            Some(d) => Some(Value::TimestampTz(Zoned { datetime: d, offset_seconds: 0 })),
            None => None,
        };
        or_unknown(found, binary_data, type_id)
    } else if type_id == PG_TYPE_TIME && len == 8 && n >= 8 {
        let microseconds = i64_from_bits(u64_from_be(binary_data));
        let found = match time_of_microseconds(microseconds) {
            Some(t) => Some(Value::Time(t)),
            None => None,
        };
        or_unknown(found, binary_data, type_id)
    } else {
        Value::Unknown(copy_bytes(binary_data), type_id)
    };
    Ok(value)
}

} // verus!
