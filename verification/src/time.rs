//! Points in time as plain integers, and the conversion of the catalogue's
//! wall-clock text (U.S. Pacific time) into UTC.

use chrono::{DateTime, LocalResult, NaiveDateTime, TimeZone};
use chrono_tz::US::Pacific;
use vstd::prelude::*;

verus! {

/// A point on the UTC time line: whole seconds since 1970-01-01T00:00:00Z and
/// the nanoseconds past that second.
#[derive(Clone, Copy, Debug, PartialEq, Eq, Structural)]
pub struct Timestamp {
    pub secs: i64,
    pub nanos: u32,
}

impl Timestamp {
    /// Strictly later than `other`: seconds decide, nanoseconds break ties.
    pub open spec fn is_after(self, other: Timestamp) -> bool {
        self.secs > other.secs || (self.secs == other.secs && self.nanos > other.nanos)
    }

    /// Not earlier than `other`.
    pub open spec fn is_at_or_after(self, other: Timestamp) -> bool {
        !other.is_after(self)
    }

    /// Whether this instant is strictly later than `other`.
    pub fn after(&self, other: &Timestamp) -> (r: bool)
        ensures
            r == self.is_after(*other),
    {
        self.secs > other.secs || (self.secs == other.secs && self.nanos > other.nanos)
    }
}

/// A wall-clock reading without a time zone, held as the seconds and
/// nanoseconds that the same reading would have on a clock set to UTC.
#[derive(Clone, Copy, Debug, PartialEq, Eq, Structural)]
pub struct WallClock {
    pub secs: i64,
    pub nanos: u32,
}

/// What a wall-clock reading denotes in a time zone with daylight saving.
#[derive(Clone, Copy, Debug, PartialEq, Eq, Structural)]
pub enum LocalMapping {
    /// Exactly one instant.
    Single(Timestamp),
    /// The clock was turned back over this reading: the earlier and the later instant.
    Ambiguous(Timestamp, Timestamp),
    /// The clock was turned forward over this reading, or it lies out of range.
    Missing,
}

/// Why a publish time could not be turned into one UTC instant.
#[derive(Clone, Copy, Debug, PartialEq, Eq, Structural)]
pub enum TimeError {
    /// The text is not a date and time in the expected layout.
    Malformed,
    /// The reading falls into the hour that a switch to daylight saving skips.
    Skipped,
    /// The reading falls into the hour that a switch back repeats.
    Repeated,
}

/// `chrono::ParseError`, the error of `chrono`'s parsers. Nothing is known of
/// a value of it; it is only carried from the parser to the place that
/// replaces it by `TimeError::Malformed`.
#[verifier::external_type_specification]
#[verifier::external_body]
pub struct ExParseError(chrono::ParseError);

/// The reading that `chrono::NaiveDateTime::parse_from_str` parses from
/// `text` under the strftime layout `format`, or `None` where it rejects the
/// text. What it is for a given text is not stated here.
pub uninterp spec fn naive_reading(text: Seq<char>, format: Seq<char>) -> Option<WallClock>;

/// What `chrono::TimeZone::from_local_datetime` makes of a wall-clock reading
/// in the zone `chrono_tz::US::Pacific`, with the time zone data that the
/// linked `chrono-tz` holds. What it is for a given reading is not stated here.
pub uninterp spec fn pacific_mapping(local: WallClock) -> LocalMapping;

/// Calls `chrono::NaiveDateTime::parse_from_str` and hands the reading out as
/// the seconds and nanoseconds that `and_utc` gives it. The contract claims
/// only that the outcome is a function of the two texts: success exactly
/// where `naive_reading` is `Some`, and then that reading. Nothing here
/// proves it.
#[verifier::external_body]
fn parse_naive(text: &str, format: &str) -> (r: Result<WallClock, chrono::ParseError>)
    ensures
        r is Ok <==> naive_reading(text@, format@) is Some,
        r matches Ok(local) ==> naive_reading(text@, format@) == Some(local),
{
    match NaiveDateTime::parse_from_str(text, format) {
        Ok(dt) => Ok(WallClock {
            secs: dt.and_utc().timestamp(),
            nanos: dt.and_utc().timestamp_subsec_nanos(),
        }),
        Err(e) => Err(e),
    }
}

/// Calls `chrono::TimeZone::from_local_datetime` on `chrono_tz::US::Pacific`.
/// The reading is first rebuilt with `chrono::DateTime::from_timestamp`; one
/// that `chrono` cannot represent comes back as `Missing`. Each instant is
/// handed out as its `timestamp` and `timestamp_subsec_nanos`. The contract
/// claims only that the outcome is a function of the reading. Nothing here
/// proves it.
#[verifier::external_body]
fn pacific_from_local(local: WallClock) -> (r: LocalMapping)
    ensures
        r == pacific_mapping(local),
{
    let naive = match DateTime::from_timestamp(local.secs, local.nanos) {
        Some(dt) => dt.naive_utc(),
        None => return LocalMapping::Missing,
    };
    match Pacific.from_local_datetime(&naive) {
        LocalResult::Single(t) => LocalMapping::Single(
            Timestamp { secs: t.timestamp(), nanos: t.timestamp_subsec_nanos() },
        ),
        LocalResult::Ambiguous(a, b) => LocalMapping::Ambiguous(
            Timestamp { secs: a.timestamp(), nanos: a.timestamp_subsec_nanos() },
            Timestamp { secs: b.timestamp(), nanos: b.timestamp_subsec_nanos() },
        ),
        LocalResult::None => LocalMapping::Missing,
    }
}

/// The one instant that a mapping denotes, or the reason there is none.
pub open spec fn single_instant(mapping: LocalMapping) -> Result<Timestamp, TimeError> {
    match mapping {
        LocalMapping::Single(t) => Ok(t),
        LocalMapping::Ambiguous(_, _) => Err(TimeError::Repeated),
        LocalMapping::Missing => Err(TimeError::Skipped),
    }
}

/// The UTC instant of a publish time written as `YYYY-MM-DD HH:MM:SS` in
/// U.S. Pacific time.
pub open spec fn publish_instant(text: Seq<char>) -> Result<Timestamp, TimeError> {
    match naive_reading(text, "%Y-%m-%d %H:%M:%S"@) {
        None => Err(TimeError::Malformed),
        Some(local) => single_instant(pacific_mapping(local)),
    }
}

/// Keeps a mapping only where it is a single instant.
pub fn single(mapping: LocalMapping) -> (r: Result<Timestamp, TimeError>)
    ensures
        r == single_instant(mapping),
{
    match mapping {
        LocalMapping::Single(t) => Ok(t),
        LocalMapping::Ambiguous(_, _) => Err(TimeError::Repeated),
        LocalMapping::Missing => Err(TimeError::Skipped),
    }
}

/// Converts a publish time as the catalogue writes it into UTC.
pub fn resolve_publish_time(text: &str) -> (r: Result<Timestamp, TimeError>)
    ensures
        r == publish_instant(text@),
{
    match parse_naive(text, "%Y-%m-%d %H:%M:%S") {
        Err(_) => Err(TimeError::Malformed),
        Ok(local) => single(pacific_from_local(local)),
    }
}

/// The UNIX timestamp of a publish time, where it denotes exactly one instant.
pub fn from_giantbomb_datetime_to_timestamp(s: &str) -> (r: Option<i64>)
    ensures
        r == match publish_instant(s@) {
            Ok(t) => Some(t.secs),
            Err(_) => None::<i64>,
        },
{
    match resolve_publish_time(s) {
        Ok(t) => Some(t.secs),
        Err(_) => None,
    }
}

} // verus!
