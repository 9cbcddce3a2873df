//! The clock: readings of the system's time, made monotonic.
//!
//! The system's clock can be set back. A [`Clock`] remembers the latest
//! time it has handed out and never hands out an earlier one, so that
//! time as the store sees it does not run backward.

use vstd::prelude::*;

verus! {

/// The current time in whole seconds since the Unix epoch, as
/// `chrono::Utc::now` reads it from the system and
/// `chrono::DateTime::timestamp` counts it.
///
/// Nothing is claimed of the value: it is whatever the system's clock says,
/// and two readings may come in any order. `Utc::now` itself stops the
/// program if the system's clock stands before the epoch or beyond the
/// years that chrono can hold.
#[verifier::external_body]
fn utc_seconds() -> (seconds: i64) {
    chrono::Utc::now().timestamp()
}

/// The larger of two times.
pub open spec fn later(a: int, b: int) -> int {
    if a >= b {
        a
    } else {
        b
    }
}

/// A source of time that never runs backward. Its view is the latest time
/// it has handed out.
pub struct Clock {
    latest: i64,
}

impl View for Clock {
    type V = int;

    closed spec fn view(&self) -> int {
        self.latest as int
    }
}

impl Clock {
    /// A clock that has handed out no time yet: any first reading is
    /// taken as it is.
    pub fn new() -> (clock: Clock)
        ensures
            clock@ == i64::MIN,
    {
        Clock { latest: i64::MIN }
    }

    /// Takes a reading of some underlying clock and returns the time to
    /// use: the reading, unless the clock has already handed out a later
    /// time, which it then repeats.
    pub fn observe(&mut self, reading: i64) -> (now: i64)
        ensures
            now == later(old(self)@, reading as int),
            final(self)@ == now,
    {
        if reading > self.latest {
            self.latest = reading;
        }
        self.latest
    }

    /// Reads the system's clock and returns the time to use, which is
    /// never earlier than a time handed out before.
    pub fn now(&mut self) -> (now: i64)
        ensures
            now >= old(self)@,
            final(self)@ == now,
    {
        let reading: i64 = utc_seconds();
        self.observe(reading)
    }

    /// The latest time handed out.
    pub fn latest(&self) -> (latest: i64)
        ensures
            latest == self@,
    {
        self.latest
    }
}

} // verus!
