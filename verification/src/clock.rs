//! Instants read from RFC 3339 texts and from the system clock.

use vstd::prelude::*;

verus! {

/// An instant: the whole seconds since the start of 1970 in UTC, leap
/// seconds not counted, and the nanoseconds since that second began. During
/// a leap second the nanoseconds run on past 999,999,999.
#[derive(Clone, Copy, Debug, PartialEq, Eq, Structural)]
pub struct Timestamp {
    pub secs: i64,
    pub nanos: u32,
}

impl Timestamp {
    /// This instant is `other` or comes after it.
    pub open spec fn at_or_after(self, other: Timestamp) -> bool {
        self.secs > other.secs || (self.secs == other.secs && self.nanos >= other.nanos)
    }

    /// Whether this instant is `other` or comes after it.
    pub fn is_at_or_after(&self, other: &Timestamp) -> (reached: bool)
        ensures
            reached == self.at_or_after(*other),
    {
        self.secs > other.secs || (self.secs == other.secs && self.nanos >= other.nanos)
    }

    /// The instant that the system clock shows. Nothing is known of it
    /// beforehand, and two readings may differ.
    pub fn now() -> Timestamp {
        let (secs, nanos) = utc_now();
        Timestamp { secs, nanos }
    }

    /// Reads an RFC 3339 date and time, such as `2020-01-01T00:00:00Z`.
    pub fn parse_rfc3339(text: &str) -> (instant: Option<Timestamp>)
        ensures
            instant == timestamp_of(text@),
    {
        match rfc3339_parts(text) {
            Some((secs, nanos)) => Some(Timestamp { secs, nanos }),
            None => None,
        }
    }
}

/// What `chrono::DateTime::parse_from_rfc3339` makes of a text: nothing
/// where it reports an error, else the seconds and nanoseconds of the
/// instant that it returns.
pub uninterp spec fn rfc3339_instant(text: Seq<char>) -> Option<(i64, u32)>;

/// The instant that an RFC 3339 text names, if it names one.
pub open spec fn timestamp_of(text: Seq<char>) -> Option<Timestamp> {
    match rfc3339_instant(text) {
        Some((secs, nanos)) => Some(Timestamp { secs, nanos }),
        None => None,
    }
}

/// Calls `chrono::DateTime::parse_from_rfc3339` and hands back what
/// `timestamp` and `timestamp_subsec_nanos` say of the instant it returns.
/// The result depends on the text alone. chrono orders two instants as this
/// pair of numbers is ordered, the seconds first.
#[verifier::external_body]
fn rfc3339_parts(text: &str) -> (parts: Option<(i64, u32)>)
    ensures
        parts == rfc3339_instant(text@),
{
    match chrono::DateTime::parse_from_rfc3339(text) {
        Ok(instant) => Some((instant.timestamp(), instant.timestamp_subsec_nanos())),
        Err(_) => None,
    }
}

/// Calls `chrono::Utc::now` and hands back what `timestamp` and
/// `timestamp_subsec_nanos` say of it. Nothing is claimed of the result.
/// chrono panics where the system clock shows a time before 1970.
#[verifier::external_body]
fn utc_now() -> (parts: (i64, u32)) {
    let now = chrono::Utc::now();
    (now.timestamp(), now.timestamp_subsec_nanos())
}

} // verus!
