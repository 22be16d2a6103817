//! Instants on the UTC time line, with nanosecond precision.

use vstd::prelude::*;

verus! {

/// The number of nanoseconds in one second.
pub const NANOS_PER_SECOND: u32 = 1_000_000_000;

/// An instant: whole seconds since the Unix epoch, and the nanoseconds that
/// have passed since that second began.
#[derive(Debug, Clone, Copy, PartialEq, Eq, Structural)]
pub struct Timestamp {
    pub secs: i64,
    pub nanos: u32,
}

impl View for Timestamp {
    type V = int;

    /// The instant as nanoseconds since the Unix epoch.
    open spec fn view(&self) -> int {
        self.secs * NANOS_PER_SECOND + self.nanos
    }
}

/// The instant `cooldown_seconds` after `then` lies strictly before `now`.
pub open spec fn cooldown_over(then: int, now: int, cooldown_seconds: int) -> bool {
    now - then > cooldown_seconds * NANOS_PER_SECOND
}

/// The whole seconds of cooldown that are left at `now` for a cooldown that
/// began at `then`; zero once less than a second is left.
pub open spec fn cooldown_left(then: int, now: int, cooldown_seconds: int) -> int {
    let left = cooldown_seconds * NANOS_PER_SECOND - (now - then);
    if left >= NANOS_PER_SECOND {
        left / (NANOS_PER_SECOND as int)
    } else {
        0
    }
}

/// Reads the system clock through `chrono::Utc::now` and hands back the
/// reading's `timestamp()` and `timestamp_subsec_nanos()`.  Nothing is
/// claimed of the reading: the clock may stand anywhere and may step back.
/// `Utc::now` panics where the system clock stands before the Unix epoch.
#[verifier::external_body]
fn utc_now() -> (reading: (i64, u32)) {
    let now = chrono::Utc::now();
    (now.timestamp(), now.timestamp_subsec_nanos())
}

impl Timestamp {
    /// The instant `nanos` nanoseconds after the second `secs`.
    pub fn new(secs: i64, nanos: u32) -> (t: Timestamp)
        ensures
            t.secs == secs,
            t.nanos == nanos,
            t@ == secs * NANOS_PER_SECOND + nanos,
    {
        Timestamp { secs, nanos }
    }

    /// The current reading of the system clock.
    pub fn now() -> (t: Timestamp) {
        let reading = utc_now();
        Timestamp::new(reading.0, reading.1)
    }

    /// The instant as nanoseconds since the Unix epoch.
    pub fn total_nanos(&self) -> (n: i128)
        ensures
            n == self@,
    {
        let secs: i128 = self.secs as i128;
        let nanos: i128 = self.nanos as i128;
        secs * 1_000_000_000 + nanos
    }

    /// Whether this instant lies strictly before `other`.
    pub fn is_before(&self, other: &Timestamp) -> (before: bool)
        ensures
            before == (self@ < other@),
    {
        self.total_nanos() < other.total_nanos()
    }

    /// Whether a cooldown of `cooldown_seconds` that began at this instant is
    /// over at `now`: strictly more than the cooldown has passed.
    pub fn cooldown_over_at(&self, now: &Timestamp, cooldown_seconds: i64) -> (over: bool)
        ensures
            over == cooldown_over(self@, now@, cooldown_seconds as int),
    {
        let elapsed: i128 = now.total_nanos() - self.total_nanos();
        let cooldown: i128 = cooldown_seconds as i128;
        elapsed > cooldown * 1_000_000_000
    }

    /// The whole seconds of cooldown left at `now` for a cooldown of
    /// `cooldown_seconds` that began at this instant.  The count stops at
    /// `i64::MAX`, which no two calendar dates are apart.
    pub fn cooldown_left_at(&self, now: &Timestamp, cooldown_seconds: i64) -> (left: i64)
        ensures
            left == if cooldown_left(self@, now@, cooldown_seconds as int) <= i64::MAX {
                cooldown_left(self@, now@, cooldown_seconds as int)
            } else {
                i64::MAX as int
            },
    {
        let elapsed: i128 = now.total_nanos() - self.total_nanos();
        let cooldown: i128 = cooldown_seconds as i128;
        let second: i128 = 1_000_000_000;
        let left: i128 = cooldown * second - elapsed;
        if left >= second {
            let seconds: i128 = left / second;
            if seconds <= i64::MAX as i128 {
                seconds as i64
            } else {
                i64::MAX
            }
        } else {
            0
        }
    }
}

} // verus!
