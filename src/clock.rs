//! Calendar days, wall-clock readings and UTC instants.
//!
//! Three integer scales are used throughout the library:
//! - a calendar day is its Julian day number (day 0 is a Monday);
//! - a UTC instant is a count of seconds since 1970-01-01T00:00:00Z;
//! - a wall-clock reading ("local seconds") is the count of seconds since
//!   1970-01-01T00:00:00 on the clock of some zone, with no offset applied.
use vstd::prelude::*;

verus! {

/// Seconds in a calendar day.
pub const SECS_PER_DAY: i64 = 86400;

/// Julian day number of 1970-01-01.
pub const UNIX_EPOCH_JULIAN_DAY: i64 = 2440588;

/// Weekday numbers run from 1 (Monday) to 7 (Sunday).
pub open spec fn is_weekday(d: int) -> bool {
    1 <= d <= 7
}

/// Monday-first weekday of a Julian day number: Julian day 0 was a Monday.
pub open spec fn weekday_of_julian(j: int) -> int {
    j % 7 + 1
}

/// Wall-clock reading at the start of a Julian day.
pub open spec fn midnight_of_julian(j: int) -> int {
    (j - UNIX_EPOCH_JULIAN_DAY as int) * SECS_PER_DAY as int
}

/// Monday-first weekday, in UTC, of an instant: 1970-01-01 was a Thursday.
pub open spec fn weekday_of_instant(t: int) -> int {
    (t / SECS_PER_DAY as int + 3) % 7 + 1
}

/// Monday-first weekday of the instant `t` on a clock `offset` seconds ahead
/// of UTC.
pub fn weekday_at_offset(t: i64, offset: i32) -> (r: u8)
    ensures
        r as int == weekday_of_instant(t + offset),
        is_weekday(r as int),
{
    let shifted: i128 = t as i128 + offset as i128;
    let d = match shifted.checked_div_euclid(SECS_PER_DAY as i128) {
        Some(d) => d,
        None => 0,
    };
    assert(d as int == shifted as int / SECS_PER_DAY as int);
    assert(-200_000_000_000_000 < d < 200_000_000_000_000) by (nonlinear_arith)
        requires
            d as int == shifted as int / 86400,
            i64::MIN - 2_147_483_648 <= shifted <= i64::MAX + 2_147_483_647,
    ;
    match (d + 3).checked_rem_euclid(7) {
        Some(m) => (m + 1) as u8,
        None => 1,
    }
}

/// Seconds since midnight of an hour, minute and second.
pub open spec fn secs_of_hms(h: int, m: int, s: int) -> int {
    h * 3600 + m * 60 + s
}

/// A calendar date, held as its Julian day number.
#[derive(Clone, Copy, Debug, PartialEq, Eq, Structural)]
pub struct CalendarDay {
    pub julian_day: i32,
}

impl CalendarDay {
    /// Monday-first weekday of this date.
    pub fn weekday(&self) -> (r: u8)
        ensures
            r as int == weekday_of_julian(self.julian_day as int),
            is_weekday(r as int),
    {
        let j = self.julian_day as i64;
        match j.checked_rem_euclid(7) {
            Some(m) => (m + 1) as u8,
            None => 1,
        }
    }

    /// Wall-clock reading at the first second of this date.
    pub fn midnight(&self) -> (r: i64)
        ensures
            r as int == midnight_of_julian(self.julian_day as int),
    {
        (self.julian_day as i64 - UNIX_EPOCH_JULIAN_DAY) * SECS_PER_DAY
    }
}

/// What `time` reads from text of the shape `YYYY-MM-DD`, as a Julian day.
pub uninterp spec fn julian_day_of_text(s: Seq<char>) -> Option<i32>;

/// What `time` reads from text of the shape `HH:MM:SS`.
pub uninterp spec fn hms_of_text(s: Seq<char>) -> Option<(u8, u8, u8)>;

/// What `time` reads from an RFC 3339 timestamp, as Unix seconds.
pub uninterp spec fn instant_of_rfc3339(s: Seq<char>) -> Option<i64>;

/// The offset from UTC, in seconds, of an RFC 3339 timestamp as `time` reads
/// it.
pub uninterp spec fn offset_of_rfc3339(s: Seq<char>) -> Option<i32>;

/// The RFC 3339 text, in UTC, that `time` writes for an instant.
pub uninterp spec fn rfc3339_of_instant(t: i64) -> Option<Seq<char>>;

/// Relies on `time::Date::parse` with the description `[year]-[month]-[day]`,
/// and on `Date::to_julian_day`: the day depends on the text alone.
#[verifier::external_body]
fn julian_day_from_text(s: &str) -> (r: Option<i32>)
    ensures
        r == julian_day_of_text(s@),
{
    let description = time::format_description::parse_borrowed::<1>("[year]-[month]-[day]").ok()?;
    time::Date::parse(s, &description).ok().map(|d| d.to_julian_day())
}

/// Relies on `time::Time::parse` with the description
/// `[hour]:[minute]:[second]`, and on `Time::as_hms`, whose parts are ranged
/// types below 24, 60 and 60.
#[verifier::external_body]
fn hms_from_text(s: &str) -> (r: Option<(u8, u8, u8)>)
    ensures
        r == hms_of_text(s@),
        r matches Some((h, m, sec)) ==> h < 24 && m < 60 && sec < 60,
{
    let description = time::format_description::parse_borrowed::<1>("[hour]:[minute]:[second]").ok()?;
    time::Time::parse(s, &description).ok().map(|t| t.as_hms())
}

/// Relies on `time::OffsetDateTime::parse` with `Rfc3339`, read back with
/// `unix_timestamp`: the instant depends on the text alone.
#[verifier::external_body]
fn instant_from_rfc3339(s: &str) -> (r: Option<i64>)
    ensures
        r == instant_of_rfc3339(s@),
{
    time::OffsetDateTime::parse(s, &time::format_description::well_known::Rfc3339).ok().map(
        |t| t.unix_timestamp(),
    )
}

/// Relies on `time::OffsetDateTime::parse` with `Rfc3339`, read back with
/// `offset` and `UtcOffset::whole_seconds`; the hours, minutes and seconds of
/// a `UtcOffset` are ranged within 25, 59 and 59.
#[verifier::external_body]
fn offset_from_rfc3339(s: &str) -> (r: Option<i32>)
    ensures
        r == offset_of_rfc3339(s@),
        r matches Some(o) ==> -93600 < o < 93600,
{
    time::OffsetDateTime::parse(s, &time::format_description::well_known::Rfc3339).ok().map(
        |t| t.offset().whole_seconds(),
    )
}

/// Relies on `time::OffsetDateTime::from_unix_timestamp` and `format` with
/// `Rfc3339`: the text depends on the instant alone.
#[verifier::external_body]
fn rfc3339_from_instant(t: i64) -> (r: Option<String>)
    ensures
        match r {
            Some(text) => rfc3339_of_instant(t) == Some(text@),
            None => rfc3339_of_instant(t) is None,
        },
{
    let at = time::OffsetDateTime::from_unix_timestamp(t).ok()?;
    at.format(&time::format_description::well_known::Rfc3339).ok()
}

/// The calendar day written as `YYYY-MM-DD` in `s`, if `s` is such a date.
pub fn parse_calendar_day(s: &str) -> (r: Option<CalendarDay>)
    ensures
        match julian_day_of_text(s@) {
            Some(j) => r == Some(CalendarDay { julian_day: j }),
            None => r is None,
        },
{
    match julian_day_from_text(s) {
        Some(j) => Some(CalendarDay { julian_day: j }),
        None => None,
    }
}

/// Seconds since midnight of a time of day written as `HH:MM:SS`.
pub open spec fn time_of_day_of_text(s: Seq<char>) -> Option<u32> {
    match hms_of_text(s) {
        Some((h, m, sec)) => Some(secs_of_hms(h as int, m as int, sec as int) as u32),
        None => None,
    }
}

/// The time of day written as `HH:MM:SS` in `s`, as seconds since midnight.
pub fn parse_time_of_day(s: &str) -> (r: Option<u32>)
    ensures
        r == time_of_day_of_text(s@),
        r matches Some(t) ==> t < SECS_PER_DAY,
{
    match hms_from_text(s) {
        Some((h, m, sec)) => Some(h as u32 * 3600 + m as u32 * 60 + sec as u32),
        None => None,
    }
}

/// The instant written in RFC 3339 form in `s`, as Unix seconds.
pub fn parse_instant(s: &str) -> (r: Option<i64>)
    ensures
        r == instant_of_rfc3339(s@),
{
    instant_from_rfc3339(s)
}

/// The offset from UTC, in seconds, that the RFC 3339 timestamp in `s` is
/// written with.
pub fn parse_offset(s: &str) -> (r: Option<i32>)
    ensures
        r == offset_of_rfc3339(s@),
        r matches Some(o) ==> -93600 < o < 93600,
{
    offset_from_rfc3339(s)
}

/// The RFC 3339 text, in UTC, of the instant `t`.
pub fn format_instant(t: i64) -> (r: Option<String>)
    ensures
        match r {
            Some(text) => rfc3339_of_instant(t) == Some(text@),
            None => rfc3339_of_instant(t) is None,
        },
{
    rfc3339_from_instant(t)
}

} // verus!
