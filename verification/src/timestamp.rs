//! Instants, and the two timestamp spellings the feed uses, read through `chrono`.

use vstd::prelude::*;

verus! {

/// An instant on the UTC time line: whole seconds since the Unix epoch and
/// the nanoseconds past that second.
#[derive(Clone, Copy, Debug, PartialEq, Eq, Structural)]
pub struct Timestamp {
    pub seconds: i64,
    pub nanos: u32,
}

/// The instant that `chrono` reads from a text as a `DateTime<Utc>`: seconds
/// since the epoch and nanoseconds of the second, or `None` where the text is
/// no such timestamp.
pub uninterp spec fn utc_instant(text: Seq<char>) -> Option<(int, int)>;

/// The seconds since the epoch of the instant that `chrono` reads from an
/// RFC 2822 date, or `None` where the text is no such date.
pub uninterp spec fn rfc2822_seconds(text: Seq<char>) -> Option<int>;

/// The timestamp a text denotes in an advisory record.
pub open spec fn timestamp_of(text: Seq<char>) -> Option<Timestamp> {
    match utc_instant(text) {
        Some((seconds, nanos)) => Some(Timestamp { seconds: seconds as i64, nanos: nanos as u32 }),
        None => None,
    }
}

/// The epoch seconds a text denotes in an object listing.
pub open spec fn listing_seconds_of(text: Seq<char>) -> Option<i64> {
    match rfc2822_seconds(text) {
        Some(seconds) => Some(seconds as i64),
        None => None,
    }
}

impl Timestamp {
    /// Whether `self` is the same instant as `other` or a later one.
    pub open spec fn at_or_after(self, other: Timestamp) -> bool {
        self.seconds > other.seconds || (self.seconds == other.seconds && self.nanos >= other.nanos)
    }

    /// Whether `self` is not earlier than `other`.
    pub fn is_at_or_after(&self, other: &Timestamp) -> (yes: bool)
        ensures
            yes == self.at_or_after(*other),
    {
        self.seconds > other.seconds || (self.seconds == other.seconds && self.nanos >= other.nanos)
    }
}

/// Parses a text with `chrono`'s `FromStr` for `DateTime<Utc>` (the reading
/// its serde support applies to a timestamp field) and takes `timestamp()` and
/// `timestamp_subsec_nanos()` of the outcome. The contract claims only that
/// the outcome is a function of the text.
#[verifier::external_body]
pub(crate) fn parse_utc_instant(text: &str) -> (instant: Option<Timestamp>)
    ensures
        match instant {
            Some(t) => utc_instant(text@) == Some((t.seconds as int, t.nanos as int)),
            None => utc_instant(text@) is None,
        },
{
    match text.parse::<chrono::DateTime<chrono::Utc>>() {
        Ok(moment) => Some(
            Timestamp { seconds: moment.timestamp(), nanos: moment.timestamp_subsec_nanos() },
        ),
        Err(_) => None,
    }
}

/// Parses a text with `chrono::DateTime::parse_from_rfc2822` and takes
/// `timestamp()` of the outcome. The contract claims only that the outcome is
/// a function of the text.
#[verifier::external_body]
pub(crate) fn parse_rfc2822_seconds(text: &str) -> (seconds: Option<i64>)
    ensures
        match seconds {
            Some(s) => rfc2822_seconds(text@) == Some(s as int),
            None => rfc2822_seconds(text@) is None,
        },
{
    match chrono::DateTime::parse_from_rfc2822(text) {
        Ok(moment) => Some(moment.timestamp()),
        Err(_) => None,
    }
}

/// Reads the system clock and has `chrono` turn it into a `DateTime<Utc>`,
/// whose `timestamp()` is returned. Nothing is claimed of the value: it is
/// whatever the clock says, negative where the clock stands before 1970.
#[verifier::external_body]
pub(crate) fn epoch_seconds_now() -> i64 {
    chrono::DateTime::<chrono::Utc>::from(std::time::SystemTime::now()).timestamp()
}

} // verus!
