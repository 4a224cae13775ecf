//! Dates and times as plain fields, and the calls into `jiff` that read
//! them from text and count them from the PostgreSQL epoch.

use crate::error::text_outcome;
use vstd::prelude::*;

verus! {

/// A calendar date.
#[derive(Debug, Clone, Copy, PartialEq, Eq, Structural)]
pub struct Date {
    /// The year, negative before the year 1.
    pub year: i16,
    /// The month, from 1.
    pub month: i8,
    /// The day of the month, from 1.
    pub day: i8,
}

/// A time of day.
#[derive(Debug, Clone, Copy, PartialEq, Eq, Structural)]
pub struct Time {
    /// The hour, from 0 to 23.
    pub hour: i8,
    /// The minute, from 0 to 59.
    pub minute: i8,
    /// The second, from 0 to 59.
    pub second: i8,
    /// The nanoseconds within the second.
    pub subsec_nanosecond: i32,
}

/// A date and a time of day, without a time zone.
#[derive(Debug, Clone, Copy, PartialEq, Eq, Structural)]
pub struct DateTime {
    /// The day.
    pub date: Date,
    /// The time of that day.
    pub time: Time,
}

/// A date and a time of day as a clock shows them at a fixed offset from UTC.
/// `local - offset_seconds` is the instant in UTC.
#[derive(Debug, Clone, Copy, PartialEq, Eq, Structural)]
pub struct Zoned {
    /// The local date and time.
    pub datetime: DateTime,
    /// The seconds by which the local clock is ahead of UTC.
    pub offset_seconds: i32,
}

/// The first day of the PostgreSQL epoch.
pub open spec fn spec_pg_epoch_date() -> Date {
    Date { year: 2000, month: 1, day: 1 }
}

/// Midnight at the start of the PostgreSQL epoch.
pub open spec fn spec_pg_epoch() -> DateTime {
    DateTime {
        date: spec_pg_epoch_date(),
        time: Time { hour: 0, minute: 0, second: 0, subsec_nanosecond: 0 },
    }
}

/// The first day of the PostgreSQL epoch, 2000-01-01.
pub fn pg_epoch_date() -> (r: Date)
    ensures
        r == spec_pg_epoch_date(),
{
    Date { year: 2000, month: 1, day: 1 }
}

/// Midnight at the start of the PostgreSQL epoch.
pub fn pg_epoch() -> (r: DateTime)
    ensures
        r == spec_pg_epoch(),
{
    DateTime {
        date: pg_epoch_date(),
        time: Time { hour: 0, minute: 0, second: 0, subsec_nanosecond: 0 },
    }
}

/// True for an hour, minute, second and fraction that a clock can show.
pub open spec fn is_time_of_day(hour: int, minute: int, second: int, subsec_nanosecond: int) -> bool {
    &&& 0 <= hour <= 23
    &&& 0 <= minute <= 59
    &&& 0 <= second <= 59
    &&& 0 <= subsec_nanosecond <= 999_999_999
}

/// The format of a date in text.
pub open spec fn date_format() -> Seq<char> {
    "%Y-%m-%d"@
}

/// The format of a timestamp in text, the fraction optional.
pub open spec fn timestamp_format() -> Seq<char> {
    "%Y-%m-%d %H:%M:%S%.f"@
}

/// The format of a time in text, the fraction optional.
pub open spec fn time_format() -> Seq<char> {
    "%H:%M:%S%.f"@
}

/// The format of a timestamp with time zone in text, after its offset has
/// been brought to four digits.
pub open spec fn timestamptz_format() -> Seq<char> {
    "%Y-%m-%d %H:%M:%S%.f%z"@
}

/// The date that `jiff::civil::Date::strptime` reads from `text` under
/// `format`, or what `jiff` says of the failure.
pub uninterp spec fn jiff_strptime_date(format: Seq<char>, text: Seq<char>) -> Result<
    Date,
    Seq<char>,
>;

/// The time that `jiff::civil::Time::strptime` reads from `text` under
/// `format`, or what `jiff` says of the failure.
pub uninterp spec fn jiff_strptime_time(format: Seq<char>, text: Seq<char>) -> Result<
    Time,
    Seq<char>,
>;

/// The date and time that `jiff::civil::DateTime::strptime` reads from `text`
/// under `format`, or what `jiff` says of the failure.
pub uninterp spec fn jiff_strptime_datetime(format: Seq<char>, text: Seq<char>) -> Result<
    DateTime,
    Seq<char>,
>;

/// The local date and time and the offset of what `jiff::Zoned::strptime`
/// reads from `text` under `format`, or what `jiff` says of the failure.
pub uninterp spec fn jiff_strptime_zoned(format: Seq<char>, text: Seq<char>) -> Result<
    Zoned,
    Seq<char>,
>;

/// The date `days` days after `base` as `jiff::civil::Date::checked_add`
/// computes it, if `jiff` can hold the three of them.
pub uninterp spec fn jiff_date_plus_days(base: Date, days: int) -> Option<Date>;

/// The date and time `microseconds` after `base` as
/// `jiff::civil::DateTime::checked_add` computes it, if `jiff` can hold the
/// three of them.
pub uninterp spec fn jiff_datetime_plus_microseconds(base: DateTime, microseconds: int) -> Option<
    DateTime,
>;

/// The date and time in UTC `microseconds` after the instant at which a clock
/// in UTC shows `base`, as `jiff::Zoned::checked_add` computes it, if `jiff`
/// can hold the three of them.
pub uninterp spec fn jiff_utc_plus_microseconds(base: DateTime, microseconds: int) -> Option<
    DateTime,
>;

/// `jiff::civil::Date::strptime` under the format of a date, which names no
/// time zone and no locale. An `Err` carries what `jiff` says of the failure, which depends on format and text alone.
#[verifier::external_body]
pub(crate) fn strptime_date(format: &str, text: &str) -> (r: Result<Date, String>)
    requires
        format@ == date_format(),
    ensures
        text_outcome(r) == jiff_strptime_date(format@, text@),
{
    match jiff::civil::Date::strptime(format, text) {
        Ok(d) => Ok(Date { year: d.year(), month: d.month(), day: d.day() }),
        Err(e) => Err(e.to_string()),
    }
}

/// `jiff::civil::Time::strptime` under the format of a time, which names no
/// time zone and no locale. An `Err` carries what `jiff` says of the failure, which depends on format and text alone.
#[verifier::external_body]
pub(crate) fn strptime_time(format: &str, text: &str) -> (r: Result<Time, String>)
    requires
        format@ == time_format(),
    ensures
        text_outcome(r) == jiff_strptime_time(format@, text@),
{
    match jiff::civil::Time::strptime(format, text) {
        Ok(t) => Ok(Time { hour: t.hour(), minute: t.minute(), second: t.second(), subsec_nanosecond: t.subsec_nanosecond() }),
        Err(e) => Err(e.to_string()),
    }
}

/// `jiff::civil::DateTime::strptime` under the format of a timestamp, which
/// names no time zone and no locale. An `Err` carries what `jiff` says of the
/// failure.
#[verifier::external_body]
pub(crate) fn strptime_datetime(format: &str, text: &str) -> (r: Result<DateTime, String>)
    requires
        format@ == timestamp_format(),
    ensures
        text_outcome(r) == jiff_strptime_datetime(format@, text@),
{
    let d = match jiff::civil::DateTime::strptime(format, text) {
        Ok(d) => d,
        Err(e) => return Err(e.to_string()),
    };
    Ok(DateTime { date: Date { year: d.year(), month: d.month(), day: d.day() }, time: Time { hour: d.hour(), minute: d.minute(), second: d.second(), subsec_nanosecond: d.subsec_nanosecond() } })
}

/// `jiff::Zoned::strptime` under the format of a timestamp with a numeric
/// offset, which names no time zone and no locale; the result is taken as its
/// local date and time and its offset from UTC. An `Err` carries what `jiff`
/// says of the failure.
#[verifier::external_body]
pub(crate) fn strptime_zoned(format: &str, text: &str) -> (r: Result<Zoned, String>)
    requires
        format@ == timestamptz_format(),
    ensures
        text_outcome(r) == jiff_strptime_zoned(format@, text@),
{
    let z = match jiff::Zoned::strptime(format, text) {
        Ok(z) => z,
        Err(e) => return Err(e.to_string()),
    };
    let datetime = DateTime { date: Date { year: z.year(), month: z.month(), day: z.day() }, time: Time { hour: z.hour(), minute: z.minute(), second: z.second(), subsec_nanosecond: z.subsec_nanosecond() } };
    Ok(Zoned { datetime, offset_seconds: z.offset().seconds() })
}

/// `jiff::civil::Date::checked_add` with a span of `days` days. `None` where
/// `jiff` refuses the date, the span or the sum.
#[verifier::external_body]
pub(crate) fn date_plus_days(base: Date, days: i32) -> (r: Option<Date>)
    ensures
        r == jiff_date_plus_days(base, days as int),
{
    let start = jiff::civil::Date::new(base.year, base.month, base.day).ok()?;
    let span = jiff::Span::new().try_days(days).ok()?;
    let d = start.checked_add(span).ok()?;
    Some(Date { year: d.year(), month: d.month(), day: d.day() })
}

/// `jiff::civil::DateTime::checked_add` with a span of `microseconds`
/// microseconds. `None` where `jiff` refuses the date and time, the span or
/// the sum.
#[verifier::external_body]
pub(crate) fn datetime_plus_microseconds(base: DateTime, microseconds: i64) -> (r: Option<DateTime>)
    ensures
        r == jiff_datetime_plus_microseconds(base, microseconds as int),
{
    let (d, t) = (base.date, base.time);
    let start = jiff::civil::DateTime::new(d.year, d.month, d.day, t.hour, t.minute, t.second, t.subsec_nanosecond).ok()?;
    let span = jiff::Span::new().try_microseconds(microseconds).ok()?;
    let z = start.checked_add(span).ok()?;
    Some(DateTime { date: Date { year: z.year(), month: z.month(), day: z.day() }, time: Time { hour: z.hour(), minute: z.minute(), second: z.second(), subsec_nanosecond: z.subsec_nanosecond() } })
}

/// `jiff::Zoned::checked_add` with a span of `microseconds` microseconds, on
/// `base` taken in UTC; the sum is given as UTC shows it. `None` where `jiff`
/// refuses the date and time, the span or the sum.
#[verifier::external_body]
pub(crate) fn utc_plus_microseconds(base: DateTime, microseconds: i64) -> (r: Option<DateTime>)
    ensures
        r == jiff_utc_plus_microseconds(base, microseconds as int),
{
    let (d, t) = (base.date, base.time);
    let start = jiff::civil::DateTime::new(d.year, d.month, d.day, t.hour, t.minute, t.second, t.subsec_nanosecond).ok()?;
    let span = jiff::Span::new().try_microseconds(microseconds).ok()?;
    let z = start.to_zoned(jiff::tz::TimeZone::UTC).ok()?.checked_add(span).ok()?;
    Some(DateTime { date: Date { year: z.year(), month: z.month(), day: z.day() }, time: Time { hour: z.hour(), minute: z.minute(), second: z.second(), subsec_nanosecond: z.subsec_nanosecond() } })
}

/// `jiff::civil::Time::new`: the time of day made of the four fields, where
/// each is in its range.
#[verifier::external_body]
pub(crate) fn time_new(hour: i8, minute: i8, second: i8, subsec_nanosecond: i32) -> (r: Option<
    Time,
>)
    ensures
        r is Some <==> is_time_of_day(
            hour as int,
            minute as int,
            second as int,
            subsec_nanosecond as int,
        ),
        r is Some ==> r->Some_0 == (Time { hour, minute, second, subsec_nanosecond }),
{
    match jiff::civil::Time::new(hour, minute, second, subsec_nanosecond) {
        Ok(t) => Some(Time { hour: t.hour(), minute: t.minute(), second: t.second(), subsec_nanosecond: t.subsec_nanosecond() }),
        Err(_) => None,
    }
}

/// The least reading of the system clock that `jiff` holds, in microseconds
/// since the Unix epoch.
pub const MIN_UNIX_MICROSECONDS: i64 = -377_705_023_201_000_000;

/// The greatest reading of the system clock that `jiff` holds, in
/// microseconds since the Unix epoch.
pub const MAX_UNIX_MICROSECONDS: i64 = 253_402_207_200_999_999;

/// `jiff::Timestamp::try_from` on the system clock, then
/// `jiff::Timestamp::as_microsecond`: the microseconds since the Unix epoch,
/// which lie between the least and the greatest timestamp that `jiff` holds.
/// An `Err` carries what `jiff` says where the clock is outside them.
#[verifier::external_body]
pub(crate) fn unix_microseconds_now() -> (r: Result<i64, String>)
    ensures
        r is Ok ==> MIN_UNIX_MICROSECONDS <= r->Ok_0 <= MAX_UNIX_MICROSECONDS,
{
    match jiff::Timestamp::try_from(std::time::SystemTime::now()) {
        Ok(t) => Ok(t.as_microsecond()),
        Err(e) => Err(e.to_string()),
    }
}

} // verus!
