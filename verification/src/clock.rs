//! Points in time, and the clock.
use vstd::prelude::*;

verus! {

/// How long a session token is meant to last: one hour.
pub const SESSION_LIFETIME: i64 = 3_600;

/// How long a refresh token lasts: thirty days.
pub const REFRESH_LIFETIME: i64 = 2_592_000;

/// A point in time: whole seconds since the Unix epoch, and the nanoseconds
/// into that second.
#[derive(Clone, Copy, Debug, PartialEq, Eq, Structural)]
pub struct Timestamp {
    pub secs: i64,
    pub nanos: u32,
}

impl Timestamp {
    /// Whether this point lies strictly before `other`.
    pub open spec fn before(self, other: Timestamp) -> bool {
        self.secs < other.secs || (self.secs == other.secs && self.nanos < other.nanos)
    }

    /// This point moved `seconds` into the future.
    pub open spec fn later_by(self, seconds: int) -> Timestamp
        recommends
            self.secs + seconds <= i64::MAX,
    {
        Timestamp { secs: (self.secs + seconds) as i64, nanos: self.nanos }
    }

    /// Whether this point lies strictly before `other`.
    pub fn is_before(&self, other: &Timestamp) -> (r: bool)
        ensures
            r == self.before(*other),
    {
        self.secs < other.secs || (self.secs == other.secs && self.nanos < other.nanos)
    }

    /// This point moved `seconds` into the future.
    pub fn plus_seconds(&self, seconds: i64) -> (r: Timestamp)
        requires
            0 <= seconds,
            self.secs + seconds <= i64::MAX,
        ensures
            r == self.later_by(seconds as int),
            self.before(r) || seconds == 0,
    {
        Timestamp { secs: self.secs + seconds, nanos: self.nanos }
    }
}

/// Whether a clock reading is one that the calendar can name: its day number
/// fits in 32 bits, and the nanoseconds stay below a second.
pub open spec fn readable(t: Timestamp) -> bool {
    &&& -0x1_0000_0000 * 86_400 < t.secs < 0x1_0000_0000 * 86_400
    &&& t.nanos < 1_000_000_000
}

/// The time now, by `chrono::Utc::now`, taken apart by `timestamp` and
/// `timestamp_subsec_nanos`.
///
/// Nothing is claimed of which time comes back, only that it is one the
/// calendar can name: `Utc::now` builds its result with `from_timestamp`,
/// which turns down a day number outside 32 bits, and the nanoseconds are the
/// fraction of a second of a `Duration`. (`Utc::now` does not return where
/// the system clock stands before the Unix epoch.)
#[verifier::external_body]
pub(crate) fn now() -> (t: Timestamp)
    ensures
        readable(t),
{
    let t = chrono::Utc::now();
    Timestamp { secs: t.timestamp(), nanos: t.timestamp_subsec_nanos() }
}

} // verus!
