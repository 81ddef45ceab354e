//! Points in time, held as seconds and nanoseconds since the Unix epoch (UTC).
//!
//! Parsing and formatting come from `chrono`, the clock from std, behind the
//! trusted wrappers of this module.

use chrono::{DateTime, TimeZone, Utc};
use vstd::prelude::*;

verus! {

/// A point in time: whole seconds since 1970-01-01T00:00:00Z and the
/// nanoseconds within that second (above 999,999,999 only for a leap second).
#[derive(Clone, Copy, Debug, PartialEq, Eq, Structural)]
pub struct UtcTime {
    pub secs: i64,
    pub nanos: u32,
}

impl UtcTime {
    /// The ordering by which papers are sorted: seconds, then nanoseconds.
    pub open spec fn key(self) -> int {
        self.secs * 4_294_967_296 + self.nanos
    }

    /// `self` is strictly later than `other`.
    pub fn is_after(&self, other: &UtcTime) -> (r: bool)
        ensures
            r == (self.key() > other.key()),
    {
        if self.secs != other.secs {
            self.secs > other.secs
        } else {
            self.nanos > other.nanos
        }
    }
}

/// What `DateTime::parse_from_rfc3339` yields for a text, taken to UTC:
/// `None` when the text is no RFC 3339 date-time.
pub uninterp spec fn spec_parse_rfc3339(s: Seq<char>) -> Option<UtcTime>;

/// Start of 1 January of `year`, 00:00:00 UTC, as `Utc.with_ymd_and_hms(year, 1, 1, 0, 0, 0).single()`
/// gives it: `None` for a year outside chrono's range.
pub uninterp spec fn spec_year_start(year: i32) -> Option<UtcTime>;

/// The `%Y-%m-%d` rendering of a time by chrono: `None` when
/// `DateTime::from_timestamp` refuses the time.
pub uninterp spec fn spec_date_ymd(t: UtcTime) -> Option<Seq<char>>;

/// Calls `chrono::DateTime::parse_from_rfc3339` and converts the result to UTC;
/// the result is named `spec_parse_rfc3339` of the text.
#[verifier::external_body]
pub(crate) fn parse_rfc3339(s: &str) -> (r: Option<UtcTime>)
    ensures
        r == spec_parse_rfc3339(s@),
{
    match DateTime::parse_from_rfc3339(s) {
        Ok(dt) => {
            let u = dt.with_timezone(&Utc);
            Some(UtcTime { secs: u.timestamp(), nanos: u.timestamp_subsec_nanos() })
        },
        Err(_) => None,
    }
}

/// Calls `chrono::Utc.with_ymd_and_hms(year, 1, 1, 0, 0, 0).single()`;
/// the result is named `spec_year_start` of the year.
#[verifier::external_body]
pub(crate) fn year_start(year: i32) -> (r: Option<UtcTime>)
    ensures
        r == spec_year_start(year),
{
    match Utc.with_ymd_and_hms(year, 1, 1, 0, 0, 0).single() {
        Some(u) => Some(UtcTime { secs: u.timestamp(), nanos: u.timestamp_subsec_nanos() }),
        None => None,
    }
}

/// Calls `chrono::DateTime::from_timestamp` and formats with `%Y-%m-%d`;
/// the result is named `spec_date_ymd` of the time.
#[verifier::external_body]
pub(crate) fn date_ymd(t: UtcTime) -> (r: Option<String>)
    ensures
        match r {
            Some(s) => spec_date_ymd(t) == Some(s@),
            None => spec_date_ymd(t) is None,
        },
{
    match DateTime::from_timestamp(t.secs, t.nanos) {
        Some(u) => Some(u.format("%Y-%m-%d").to_string()),
        None => None,
    }
}

/// Calls `SystemTime::now().duration_since(UNIX_EPOCH)` and takes the whole
/// seconds (`as_secs`) and the nanoseconds (`subsec_nanos`) of the duration;
/// `None` when the clock reads before 1970 (the `Err` of `duration_since`). As
/// std documents, the nanoseconds are below one billion. Nothing else is stated:
/// it is the clock's reading.
#[verifier::external_body]
pub(crate) fn clock() -> (r: Option<(u64, u32)>)
    ensures
        r matches Some((_, n)) ==> n < 1_000_000_000,
{
    match std::time::SystemTime::now().duration_since(std::time::UNIX_EPOCH) {
        Ok(d) => Some((d.as_secs(), d.subsec_nanos())),
        Err(_) => None,
    }
}

/// The start of 1970, 00:00:00 UTC.
pub open spec fn epoch() -> UtcTime {
    UtcTime { secs: 0, nanos: 0 }
}

/// The current time; the start of 1970 when the clock reads earlier than that
/// (or later than `i64` seconds reach).
pub(crate) fn now() -> (r: UtcTime)
    ensures
        r.nanos < 1_000_000_000,
{
    match clock() {
        Some((s, n)) => if s <= 0x7fff_ffff_ffff_ffff {
            UtcTime { secs: s as i64, nanos: n }
        } else {
            UtcTime { secs: 0, nanos: 0 }
        },
        None => UtcTime { secs: 0, nanos: 0 },
    }
}

} // verus!
