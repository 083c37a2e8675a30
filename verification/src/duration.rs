//! A duration with nanosecond precision, the unit the report is computed in.

use vstd::prelude::*;

verus! {

/// A span of time: whole seconds plus a sub-second remainder in nanoseconds.
///
/// Well-formed values keep `nanos` below one second; `as_nanos` is the
/// mathematical value that every contract speaks of.
#[derive(Clone, Copy, Debug, PartialEq, Eq, Structural)]
pub struct Duration {
    pub secs: u64,
    pub nanos: u32,
}

pub const NANOS_PER_SEC: u32 = 1_000_000_000;

impl Duration {
    /// The sub-second part stays below one second.
    pub open spec fn wf(&self) -> bool {
        self.nanos < NANOS_PER_SEC
    }

    /// The whole span as a count of nanoseconds.
    pub open spec fn as_nanos(&self) -> nat {
        self.secs as nat * NANOS_PER_SEC as nat + self.nanos as nat
    }

    /// Builds a duration from a seconds-and-microseconds pair, the shape in
    /// which the operating system delivers CPU times. The ranges required are
    /// the ones the system promises for such a pair.
    pub fn from_timeval(sec: i64, usec: i64) -> (r: Duration)
        requires
            0 <= sec,
            0 <= usec < 1_000_000,
        ensures
            r.wf(),
            r.as_nanos() == sec * 1_000_000_000 + usec * 1000,
    {
        Duration { secs: sec as u64, nanos: (usec as u32) * 1000 }
    }

    /// The sum of two durations. The bound on the seconds is what keeps the
    /// sum representable in this type.
    pub fn plus(&self, other: &Duration) -> (r: Duration)
        requires
            self.wf(),
            other.wf(),
            self.secs + other.secs < u64::MAX,
        ensures
            r.wf(),
            r.as_nanos() == self.as_nanos() + other.as_nanos(),
    {
        let ns: u64 = self.nanos as u64 + other.nanos as u64;
        if ns >= NANOS_PER_SEC as u64 {
            Duration { secs: self.secs + other.secs + 1, nanos: (ns - NANOS_PER_SEC as u64) as u32 }
        } else {
            Duration { secs: self.secs + other.secs, nanos: ns as u32 }
        }
    }
}

} // verus!
