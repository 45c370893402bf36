//! Instants on the UTC time line, as whole seconds and nanoseconds.

use vstd::prelude::*;

verus! {

/// What `chrono` writes for the instant `secs` seconds and `nanos`
/// nanoseconds after the Unix epoch, in RFC 3339 form; `None` where
/// `chrono` has no date for it.
pub uninterp spec fn rfc3339_text(secs: int, nanos: int) -> Option<Seq<char>>;

/// The instant that `chrono` reads out of an RFC 3339 text, as seconds and
/// nanoseconds after the Unix epoch; `None` where the text is not RFC 3339.
pub uninterp spec fn rfc3339_instant(text: Seq<char>) -> Option<(int, int)>;

/// The last second of the year 9999, in seconds since the Unix epoch.
pub const LAST_SECOND_OF_9999: i64 = 253_402_300_799;

/// An instant: seconds since the Unix epoch and nanoseconds into that second.
#[derive(Clone, Copy, Debug, PartialEq, Eq, Structural)]
pub struct Timestamp {
    pub secs: i64,
    pub nanos: u32,
}

impl Timestamp {
    /// `self` is the same instant as `other` or a later one.
    pub open spec fn at_or_after(self, other: Timestamp) -> bool {
        self.secs > other.secs || (self.secs == other.secs && self.nanos >= other.nanos)
    }

    /// The instant has an RFC 3339 text.
    pub open spec fn has_text(self) -> bool {
        rfc3339_text(self.secs as int, self.nanos as int).is_some()
    }

    /// The instant lies in the years 1970 to 9999 and is no leap second.
    /// Every such instant has a text.
    pub open spec fn in_text_range(self) -> bool {
        0 <= self.secs <= LAST_SECOND_OF_9999 && self.nanos < 1_000_000_000
    }

    /// The later of two instants.
    pub open spec fn spec_later(self, other: Timestamp) -> Timestamp {
        if self.at_or_after(other) {
            self
        } else {
            other
        }
    }

    pub fn new(secs: i64, nanos: u32) -> (t: Timestamp)
        ensures
            t.secs == secs,
            t.nanos == nanos,
    {
        Timestamp { secs, nanos }
    }

    pub fn is_at_or_after(&self, other: &Timestamp) -> (r: bool)
        ensures
            r == self.at_or_after(*other),
    {
        self.secs > other.secs || (self.secs == other.secs && self.nanos >= other.nanos)
    }

    /// The later of `self` and `other`; `self` where they are the same instant.
    pub fn later(self, other: Timestamp) -> (t: Timestamp)
        ensures
            t == self.spec_later(other),
    {
        if self.is_at_or_after(&other) {
            self
        } else {
            other
        }
    }

    /// The current reading of the system clock. Nothing ties two readings
    /// to each other: the clock may be set back between them.
    pub fn now() -> (t: Timestamp)
        ensures
            t.secs >= 0,
            t.nanos < 1_000_000_000,
            t.has_text(),
    {
        clock_reading()
    }

    /// The RFC 3339 text of this instant, where it has one. An instant
    /// in the years 1970 to 9999 has one.
    pub fn to_rfc3339(&self) -> (text: Option<String>)
        ensures
            match text {
                Some(s) => rfc3339_text(self.secs as int, self.nanos as int) == Some(s@),
                None => rfc3339_text(self.secs as int, self.nanos as int).is_none(),
            },
            text.is_some() == self.has_text(),
            self.in_text_range() ==> text.is_some(),
    {
        instant_to_text(self.secs, self.nanos)
    }

    /// The instant that an RFC 3339 text names, where it names one.
    pub fn parse_rfc3339(text: &str) -> (t: Option<Timestamp>)
        ensures
            match t {
                Some(t) => rfc3339_instant(text@) == Some((t.secs as int, t.nanos as int)),
                None => rfc3339_instant(text@).is_none(),
            },
    {
        match text_to_instant(text) {
            Some((secs, nanos)) => Some(Timestamp { secs, nanos }),
            None => None,
        }
    }
}

/// Calls `chrono::Utc::now` and hands back its `timestamp` and
/// `timestamp_subsec_nanos`. Claimed: the reading is not before the epoch
/// and the nanoseconds are under one second, as `now` builds it from a
/// duration since the epoch; and the reading has a text, as `now` made a
/// date of these two numbers with `from_timestamp`. `now` panics where
/// the system clock stands before 1970.
#[verifier::external_body]
fn clock_reading() -> (t: Timestamp)
    ensures
        t.secs >= 0,
        t.nanos < 1_000_000_000,
        rfc3339_text(t.secs as int, t.nanos as int).is_some(),
{
    let reading = chrono::Utc::now();
    Timestamp { secs: reading.timestamp(), nanos: reading.timestamp_subsec_nanos() }
}

/// Calls `chrono::DateTime::from_timestamp` and, on the date it gives,
/// `to_rfc3339`. Claimed: the text depends on the two numbers alone, and
/// there is one for every second of the years 1970 to 9999 with
/// nanoseconds under one second: `from_timestamp` has a date for each of
/// them, and `to_rfc3339` writes every date.
#[verifier::external_body]
fn instant_to_text(secs: i64, nanos: u32) -> (text: Option<String>)
    ensures
        match text {
            Some(s) => rfc3339_text(secs as int, nanos as int) == Some(s@),
            None => rfc3339_text(secs as int, nanos as int).is_none(),
        },
        0 <= secs <= LAST_SECOND_OF_9999 && nanos < 1_000_000_000 ==> text.is_some(),
{
    match chrono::DateTime::from_timestamp(secs, nanos) {
        Some(date) => Some(date.to_rfc3339()),
        None => None,
    }
}

/// Calls `chrono::DateTime::parse_from_rfc3339` and hands back the
/// `timestamp` and `timestamp_subsec_nanos` of the date it read. Claimed:
/// the outcome depends on the text alone.
#[verifier::external_body]
fn text_to_instant(text: &str) -> (instant: Option<(i64, u32)>)
    ensures
        match instant {
            Some(pair) => rfc3339_instant(text@) == Some((pair.0 as int, pair.1 as int)),
            None => rfc3339_instant(text@).is_none(),
        },
{
    match chrono::DateTime::parse_from_rfc3339(text) {
        Ok(date) => Some((date.timestamp(), date.timestamp_subsec_nanos())),
        Err(_) => None,
    }
}

} // verus!
