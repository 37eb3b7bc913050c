//! Instants on the UTC time line, and the calendar operations on them that
//! the `chrono` crate performs.

use chrono::{DateTime, TimeDelta, Utc};
use vstd::prelude::*;

verus! {

/// Seconds since the Unix epoch of the first representable instant
/// (midnight of 1 January of the year -262143).
pub const MIN_SECS: i64 = -8_334_601_228_800;

/// Seconds since the Unix epoch of the last representable second
/// (23:59:59 of 31 December of the year 262142).
pub const MAX_SECS: i64 = 8_210_266_876_799;

/// Nanoseconds in one second.
pub const NANOS_PER_SEC: u32 = 1_000_000_000;

/// An instant on the UTC time line: whole non-leap seconds since the Unix
/// epoch and the nanoseconds since that second began. A leap second is
/// written as the second before it with a nanosecond part of one second or
/// more.
#[derive(Clone, Copy, Debug, PartialEq, Eq, Structural)]
pub struct Timestamp {
    pub secs: i64,
    pub nanos: u32,
}

/// The text that `chrono` writes for the instant `(secs, nanos)` in RFC 3339
/// form with a numeric UTC offset.
pub uninterp spec fn rfc3339_text(secs: int, nanos: int) -> Seq<char>;

/// The instant that `chrono` reads from `text` as an RFC 3339 date and time,
/// if it accepts the text.
pub uninterp spec fn rfc3339_instant(text: Seq<char>) -> Option<Timestamp>;

impl Timestamp {
    /// The instant is one that the calendar can represent.
    pub open spec fn valid(self) -> bool {
        &&& MIN_SECS <= self.secs <= MAX_SECS
        &&& (self.nanos < NANOS_PER_SEC || (self.nanos < 2 * NANOS_PER_SEC && self.secs % 60
            == 59))
    }

    /// `self` lies strictly before `other`.
    pub open spec fn is_before(self, other: Timestamp) -> bool {
        self.secs < other.secs || (self.secs == other.secs && self.nanos < other.nanos)
    }

    /// The instant `hours` hours after `self`, if both can be represented.
    /// Leaving a leap second drops the extra second from the nanoseconds.
    pub open spec fn plus_hours(self, hours: u32) -> Option<Timestamp> {
        if self.valid() && self.secs + 3600 * hours <= MAX_SECS {
            Some(
                Timestamp {
                    secs: (self.secs + 3600 * hours) as i64,
                    nanos: if hours > 0 && self.nanos >= NANOS_PER_SEC {
                        (self.nanos - NANOS_PER_SEC) as u32
                    } else {
                        self.nanos
                    },
                },
            )
        } else {
            None
        }
    }

    /// Whether the instant is one that the calendar can represent.
    pub fn is_valid(&self) -> (r: bool)
        ensures
            r == self.valid(),
    {
        if self.secs < MIN_SECS || self.secs > MAX_SECS {
            false
        } else if self.nanos < NANOS_PER_SEC {
            true
        } else if self.nanos >= 2 * NANOS_PER_SEC {
            false
        } else {
            let since_first: i64 = self.secs - MIN_SECS;
            since_first % 60 == 59
        }
    }

    /// Whether `self` lies strictly before `other`.
    pub fn before(&self, other: &Timestamp) -> (r: bool)
        ensures
            r == self.is_before(*other),
    {
        self.secs < other.secs || (self.secs == other.secs && self.nanos < other.nanos)
    }

    /// The RFC 3339 text of a valid instant.
    pub fn to_rfc3339(&self) -> (r: String)
        requires
            self.valid(),
        ensures
            r@ == rfc3339_text(self.secs as int, self.nanos as int),
    {
        match format_rfc3339(*self) {
            Some(text) => text,
            None => String::new(),
        }
    }
}

/// The instant some hours after a valid one is valid, and any time added
/// leads out of a leap second.
pub proof fn lemma_plus_hours_valid(start: Timestamp, hours: u32)
    ensures
        start.plus_hours(hours) matches Some(end) ==> {
            &&& start.valid()
            &&& end.valid()
            &&& end.secs == start.secs + 3600 * hours
            &&& hours > 0 ==> end.nanos < NANOS_PER_SEC
            &&& hours > 0 ==> start.is_before(end)
        },
{
}

/// `chrono::Utc::now`, as seconds and nanoseconds. Nothing is claimed of
/// the value read but that it is an instant of the calendar, built from a
/// duration whose nanoseconds are below one second.
#[verifier::external_body]
pub(crate) fn utc_now() -> (r: Timestamp)
    ensures
        r.valid(),
        r.nanos < NANOS_PER_SEC,
{
    let now = Utc::now();
    Timestamp { secs: now.timestamp(), nanos: now.timestamp_subsec_nanos() }
}

/// `chrono::DateTime::checked_add_signed` with a whole number of hours, from
/// and to seconds and nanoseconds. The contract claims that `chrono` accepts
/// exactly the valid instants, adds 3600 seconds per hour, steps out of a
/// leap second when any time is added, and refuses a sum after the last
/// representable second.
#[verifier::external_body]
pub(crate) fn checked_plus_hours(start: Timestamp, hours: u32) -> (r: Option<Timestamp>)
    ensures
        r == start.plus_hours(hours),
{
    let from = DateTime::from_timestamp(start.secs, start.nanos)?;
    let to = from.checked_add_signed(TimeDelta::try_hours(i64::from(hours))?)?;
    Some(Timestamp { secs: to.timestamp(), nanos: to.timestamp_subsec_nanos() })
}

/// `chrono::DateTime::to_rfc3339` on the instant that
/// `chrono::DateTime::from_timestamp` builds. The contract claims that the
/// instant is built exactly when it is valid, and names the text.
#[verifier::external_body]
fn format_rfc3339(instant: Timestamp) -> (r: Option<String>)
    ensures
        r is Some <==> instant.valid(),
        r matches Some(text) ==> text@ == rfc3339_text(instant.secs as int, instant.nanos as int),
{
    match DateTime::from_timestamp(instant.secs, instant.nanos) {
        Some(t) => Some(t.to_rfc3339()),
        None => None,
    }
}

/// `chrono::DateTime::parse_from_rfc3339`, moved to UTC with
/// `with_timezone`. The contract names the instant read and claims that it
/// is an instant of the calendar.
#[verifier::external_body]
pub(crate) fn parse_rfc3339(text: &str) -> (r: Option<Timestamp>)
    ensures
        r == rfc3339_instant(text@),
        r matches Some(t) ==> t.valid(),
{
    match DateTime::parse_from_rfc3339(text) {
        Ok(t) => {
            let utc = t.with_timezone(&Utc);
            Some(Timestamp { secs: utc.timestamp(), nanos: utc.timestamp_subsec_nanos() })
        },
        Err(_) => None,
    }
}

} // verus!
