//! Conversion between wall-clock readings and UTC instants in named zones.
use vstd::prelude::*;

verus! {

/// Whether the zone database knows the IANA zone id.
pub uninterp spec fn is_known_zone(zone: Seq<char>) -> bool;

/// The UTC instant at which a zone's clock reads `local`: on a fold, the
/// reading under the later offset; none in a gap.
pub uninterp spec fn utc_of_local(zone: Seq<char>, local: i64) -> Option<i64>;

/// The reading of a zone's clock at the UTC instant `t`.
pub uninterp spec fn local_of_utc(zone: Seq<char>, t: i64) -> Option<i64>;

/// The offset from UTC, in seconds, of a zone's clock at the UTC instant `t`.
pub uninterp spec fn offset_of_zone_at(zone: Seq<char>, t: i64) -> Option<i32>;

/// Relies on `FromStr for chrono_tz::Tz`: whether the id names a zone.
#[verifier::external_body]
fn zone_id_parses(zone: &str) -> (r: bool)
    ensures
        r == is_known_zone(zone@),
{
    zone.parse::<chrono_tz::Tz>().is_ok()
}

/// Relies on `chrono::TimeZone::from_local_datetime` for `chrono_tz::Tz`,
/// taking `latest()` of the mapping, which is none when the reading falls in
/// a gap.
#[verifier::external_body]
fn utc_from_local(zone: &str, local: i64) -> (r: Option<i64>)
    ensures
        r == utc_of_local(zone@, local),
        !is_known_zone(zone@) ==> r is None,
{
    let tz: chrono_tz::Tz = zone.parse().ok()?;
    let naive = chrono::DateTime::from_timestamp(local, 0)?.naive_utc();
    chrono::TimeZone::from_local_datetime(&tz, &naive).latest().map(|at| at.timestamp())
}

/// Relies on `chrono::DateTime::with_timezone` to `chrono_tz::Tz`, and on
/// `NaiveDateTime::checked_add_offset` with the zone's offset at that
/// instant, which is none when the reading would leave chrono's range.
#[verifier::external_body]
fn local_from_utc(zone: &str, t: i64) -> (r: Option<i64>)
    ensures
        r == local_of_utc(zone@, t),
        !is_known_zone(zone@) ==> r is None,
{
    let tz: chrono_tz::Tz = zone.parse().ok()?;
    let at = chrono::DateTime::from_timestamp(t, 0)?.with_timezone(&tz);
    let local = at.naive_utc().checked_add_offset(chrono::Offset::fix(at.offset()))?;
    Some(local.and_utc().timestamp())
}

/// Relies on `chrono::TimeZone::offset_from_utc_datetime` for
/// `chrono_tz::Tz`, read with `Offset::fix` and `local_minus_utc`; a
/// `FixedOffset` stays strictly within a day either way.
#[verifier::external_body]
fn offset_at(zone: &str, t: i64) -> (r: Option<i32>)
    ensures
        r == offset_of_zone_at(zone@, t),
        !is_known_zone(zone@) ==> r is None,
        r matches Some(o) ==> -86400 < o < 86400,
{
    let tz: chrono_tz::Tz = zone.parse().ok()?;
    let at = chrono::DateTime::from_timestamp(t, 0)?;
    let offset = chrono::TimeZone::offset_from_utc_datetime(&tz, &at.naive_utc());
    Some(chrono::Offset::fix(&offset).local_minus_utc())
}

/// A day: zone transitions are always further apart than this, and offsets
/// are always less.
pub const ZONE_LOOKBACK_SECS: i64 = 86400;

/// Why a reading could not be converted.
#[derive(Clone, Copy, Debug, PartialEq, Eq, Structural)]
pub enum ZoneError {
    /// The zone id is not in the zone database.
    InvalidTimeZone,
    /// The reading or instant has no counterpart (a gap, or out of range).
    Unresolved,
}

/// The instant of a reading that falls in a gap, skipped forward: the
/// reading taken at the offset in effect a day before it, which is the offset
/// from before the gap.
pub open spec fn skip_forward(zone: Seq<char>, local: i64) -> Result<i64, ZoneError> {
    if local - ZONE_LOOKBACK_SECS < i64::MIN {
        Err(ZoneError::Unresolved)
    } else {
        match offset_of_zone_at(zone, (local - ZONE_LOOKBACK_SECS) as i64) {
            Some(o) => if i64::MIN <= local - o <= i64::MAX {
                Ok((local - o) as i64)
            } else {
                Err(ZoneError::Unresolved)
            },
            None => Err(ZoneError::Unresolved),
        }
    }
}

/// The instant at which a zone's clock reads `local`: on a fold the later
/// offset's, in a gap the reading skipped forward.
pub open spec fn spec_local_to_utc(zone: Seq<char>, local: i64) -> Result<i64, ZoneError> {
    if !is_known_zone(zone) {
        Err(ZoneError::InvalidTimeZone)
    } else {
        match utc_of_local(zone, local) {
            Some(t) => Ok(t),
            None => skip_forward(zone, local),
        }
    }
}

pub open spec fn spec_utc_to_local(zone: Seq<char>, t: i64) -> Result<i64, ZoneError> {
    if !is_known_zone(zone) {
        Err(ZoneError::InvalidTimeZone)
    } else {
        match local_of_utc(zone, t) {
            Some(l) => Ok(l),
            None => Err(ZoneError::Unresolved),
        }
    }
}

/// Whether `zone` is a zone id that the converter knows.
pub fn zone_is_known(zone: &str) -> (r: bool)
    ensures
        r == is_known_zone(zone@),
{
    zone_id_parses(zone)
}

/// The UTC instant at which the clock of `zone` reads `local`. A reading
/// that happens twice takes the later offset; one that never happens, in a
/// gap, is skipped forward by the gap's length.
pub fn local_to_utc(local: i64, zone: &str) -> (r: Result<i64, ZoneError>)
    ensures
        r == spec_local_to_utc(zone@, local),
{
    if !zone_id_parses(zone) {
        return Err(ZoneError::InvalidTimeZone);
    }
    match utc_from_local(zone, local) {
        Some(t) => Ok(t),
        None => {
            let before = match local.checked_sub(ZONE_LOOKBACK_SECS) {
                Some(b) => b,
                None => return Err(ZoneError::Unresolved),
            };
            match offset_at(zone, before) {
                Some(o) => match local.checked_sub(o as i64) {
                    Some(t) => Ok(t),
                    None => Err(ZoneError::Unresolved),
                },
                None => Err(ZoneError::Unresolved),
            }
        },
    }
}

/// The reading of the clock of `zone` at the UTC instant `t`.
pub fn utc_to_local(t: i64, zone: &str) -> (r: Result<i64, ZoneError>)
    ensures
        r == spec_utc_to_local(zone@, t),
{
    if !zone_id_parses(zone) {
        return Err(ZoneError::InvalidTimeZone);
    }
    match local_from_utc(zone, t) {
        Some(l) => Ok(l),
        None => Err(ZoneError::Unresolved),
    }
}

} // verus!
