//! Instants and durations, in whole seconds since the Unix epoch plus a
//! nanosecond part.

use vstd::prelude::*;

verus! {

/// The seconds in a week.
pub const SECS_PER_WEEK: i64 = 604_800;

/// How many weeks a session lasts.
pub const SESSION_WEEKS: u32 = 3;

/// The largest distance, in seconds, between the epoch and an instant that
/// the clock can give.
pub const CLOCK_RANGE_SECS: i64 = 0x1_0000_0000_0000;

/// A span of time, in whole seconds.
#[derive(Debug, Clone, Copy, PartialEq, Eq, Structural)]
pub struct Duration {
    pub secs: i64,
}

/// An instant in UTC: seconds since the Unix epoch, and nanoseconds into
/// that second.
#[derive(Debug, Clone, Copy, PartialEq, Eq, Structural)]
pub struct Timestamp {
    pub secs: i64,
    pub nanos: u32,
}

impl Duration {
    /// A span of `weeks` weeks.
    pub fn weeks(weeks: u32) -> (res: Duration)
        ensures
            res.secs == weeks * SECS_PER_WEEK,
    {
        let weeks: i64 = weeks as i64;
        assert(weeks * 604_800 <= 0xffff_ffff * 604_800) by (nonlinear_arith)
            requires
                0 <= weeks <= 0xffff_ffff,
        ;
        Duration { secs: weeks * SECS_PER_WEEK }
    }
}

impl Timestamp {
    /// Whether the instant is one that the clock can give.
    pub open spec fn in_clock_range(self) -> bool {
        -CLOCK_RANGE_SECS < self.secs < CLOCK_RANGE_SECS
    }

    /// The instant `span` after this one.
    pub open spec fn plus(self, span: Duration) -> Timestamp {
        Timestamp { secs: (self.secs + span.secs) as i64, nanos: self.nanos }
    }

    /// Whether the instant `span` after this one can be represented.
    pub open spec fn can_add(self, span: Duration) -> bool {
        i64::MIN <= self.secs + span.secs <= i64::MAX
    }

    /// The instant `span` after this one, where it can be represented.
    pub fn checked_add(self, span: Duration) -> (res: Option<Timestamp>)
        ensures
            res is Some <==> self.can_add(span),
            res matches Some(later) ==> later == self.plus(span) && later.secs == self.secs
                + span.secs,
    {
        match self.secs.checked_add(span.secs) {
            Some(secs) => Some(Timestamp { secs, nanos: self.nanos }),
            None => None,
        }
    }

    /// Whether this instant lies after `other`.
    pub fn is_after(&self, other: &Timestamp) -> (res: bool)
        ensures
            res == (self.secs > other.secs || (self.secs == other.secs && self.nanos
                > other.nanos)),
    {
        self.secs > other.secs || (self.secs == other.secs && self.nanos > other.nanos)
    }
}

/// How long a session lasts: three weeks.
pub fn session_duration() -> (res: Duration)
    ensures
        res.secs == 1_814_400,
{
    Duration::weeks(SESSION_WEEKS)
}

/// `chrono::Utc::now`, as `timestamp()` and `timestamp_subsec_nanos()`.
///
/// Which instant comes back is the clock's affair. chrono builds it from a
/// day number that fits 32 bits, so its seconds stay within
/// `CLOCK_RANGE_SECS` of the epoch. On a machine whose clock is set before
/// 1970 chrono panics.
#[verifier::external_body]
fn utc_now() -> (res: Timestamp)
    ensures
        res.in_clock_range(),
{
    let now = chrono::Utc::now();
    Timestamp { secs: now.timestamp(), nanos: now.timestamp_subsec_nanos() }
}

/// The current instant.
pub fn now() -> (res: Timestamp)
    ensures
        res.in_clock_range(),
{
    utc_now()
}

} // verus!
