//! Points in time, and RFC 3339 text through `chrono`.

use vstd::prelude::*;
use chrono::{DateTime, Timelike, Utc};

verus! {

/// Nanoseconds in a second.
pub const NANOS_PER_SEC: i128 = 1_000_000_000;

/// A point in time: whole seconds since the start of 1970 in UTC, and the
/// nanoseconds into that second.
#[derive(Clone, Copy, Debug, PartialEq, Eq, Structural)]
pub struct Instant {
    pub secs: i64,
    pub nanos: u32,
}

/// A date and time read from text: the point in time, and the hour of the
/// day on the clock of the offset that the text states.
#[derive(Clone, Copy, Debug, PartialEq, Eq, Structural)]
pub struct Moment {
    pub instant: Instant,
    pub hour: u32,
}

impl Instant {
    /// Nanoseconds since the start of 1970.
    pub open spec fn total_nanos(self) -> int {
        self.secs * 1_000_000_000 + self.nanos
    }

    /// True when the nanoseconds stay within the second.
    pub open spec fn within_second(self) -> bool {
        self.nanos < 1_000_000_000
    }

    /// True when `self` comes before `other`: an earlier second, or the same
    /// second and fewer nanoseconds.
    pub open spec fn before(self, other: Instant) -> bool {
        self.secs < other.secs || (self.secs == other.secs && self.nanos < other.nanos)
    }

    /// Nanoseconds since the start of 1970.
    pub fn nanos_since_epoch(self) -> (r: i128)
        ensures
            r == self.total_nanos(),
    {
        (self.secs as i128) * NANOS_PER_SEC + (self.nanos as i128)
    }

    /// Whether `self` comes before `other`.
    pub fn is_before(self, other: Instant) -> (r: bool)
        ensures
            r == self.before(other),
    {
        self.secs < other.secs || (self.secs == other.secs && self.nanos < other.nanos)
    }
}

/// What `chrono` reads out of RFC 3339 text: seconds since 1970, nanoseconds
/// into the second, and the hour of the day at the stated offset; `None`
/// where `chrono` rejects the text.
pub uninterp spec fn rfc3339_moment(text: Seq<char>) -> Option<Moment>;

/// The RFC 3339 text that `chrono` writes for a point in time in UTC; `None`
/// where `chrono` has no date for it.
pub uninterp spec fn rfc3339_text(secs: int, nanos: int) -> Option<Seq<char>>;

/// The reading of the system clock by `chrono::Utc::now`. `chrono` takes the
/// nanoseconds from the fraction of a second that has passed, so they stay
/// within the second; nothing else is claimed of the reading. `chrono` gives
/// up on a clock that is set before 1970.
#[verifier::external_body]
pub(crate) fn now() -> (r: Instant)
    ensures
        r.within_second(),
{
    let t = Utc::now();
    Instant { secs: t.timestamp(), nanos: t.timestamp_subsec_nanos() }
}

/// `chrono::DateTime::parse_from_rfc3339`, with the parsed value handed out
/// as its UNIX timestamp, its nanoseconds and its hour of day, which is a
/// number from 0 to 23. The outcome depends on the text alone.
#[verifier::external_body]
pub(crate) fn parse_rfc3339(text: &str) -> (r: Option<Moment>)
    ensures
        r == rfc3339_moment(text@),
        match r {
            Some(m) => m.hour < 24,
            None => true,
        },
{
    match DateTime::parse_from_rfc3339(text) {
        Ok(t) => Some(
            Moment {
                instant: Instant { secs: t.timestamp(), nanos: t.timestamp_subsec_nanos() },
                hour: t.hour(),
            },
        ),
        Err(_) => None,
    }
}

/// `chrono::DateTime::from_timestamp` followed by `to_rfc3339`: the text of
/// a point in time in UTC, or `None` where the timestamp is out of
/// `chrono`'s range. The outcome depends on the two numbers alone.
#[verifier::external_body]
pub(crate) fn format_rfc3339(at: Instant) -> (r: Option<String>)
    ensures
        match r {
            Some(s) => rfc3339_text(at.secs as int, at.nanos as int) == Some(s@),
            None => rfc3339_text(at.secs as int, at.nanos as int) is None,
        },
{
    match DateTime::from_timestamp(at.secs, at.nanos) {
        Some(t) => Some(t.to_rfc3339()),
        None => None,
    }
}

/// The RFC 3339 text of the instant that lies `days_ago` days before `now`;
/// `None` where that instant is out of range.
pub open spec fn days_before(now: Instant, days_ago: int) -> Option<Seq<char>> {
    let secs = now.secs - days_ago * 86_400;
    if i64::MIN <= secs <= i64::MAX {
        rfc3339_text(secs, now.nanos as int)
    } else {
        None
    }
}

/// The RFC 3339 text of the instant that lies `days_ago` days before `now`.
pub fn timestamp_days_before(now: Instant, days_ago: i64) -> (r: Option<String>)
    ensures
        match r {
            Some(s) => days_before(now, days_ago as int) == Some(s@),
            None => days_before(now, days_ago as int) is None,
        },
{
    let secs: i128 = (now.secs as i128) - (days_ago as i128) * 86_400;
    if secs < -0x8000_0000_0000_0000 || secs > 0x7fff_ffff_ffff_ffff {
        return None;
    }
    format_rfc3339(Instant { secs: secs as i64, nanos: now.nanos })
}

/// The RFC 3339 text of the instant that lies `days_ago` days before the
/// time the system clock shows. Whatever the clock shows, the result is the
/// one that `timestamp_days_before` gives for some time whose nanoseconds
/// stay within the second.
pub fn create_timestamp(days_ago: i64) -> (r: Option<String>)
    ensures
        exists|at: Instant|
            at.within_second() && match r {
                Some(s) => #[trigger] days_before(at, days_ago as int) == Some(s@),
                None => #[trigger] days_before(at, days_ago as int) is None,
            },
{
    let at = now();
    let r = timestamp_days_before(at, days_ago);
    proof {
        let found = days_before(at, days_ago as int);
        assert(at.within_second() && match r {
            Some(s) => found == Some(s@),
            None => found is None,
        });
    }
    r
}

} // verus!
