//! Spans of time read from the FPGA's microsecond timer.
use vstd::prelude::*;

verus! {

/// Microseconds in one second.
pub const MICROS_PER_SEC: u64 = 1_000_000;

/// Nanoseconds in one microsecond.
pub const NANOS_PER_MICRO: u32 = 1000;

/// A span of time as whole seconds and the nanoseconds beyond them.
#[derive(Clone, Copy, Debug, PartialEq, Eq, Structural)]
pub struct FpgaDuration {
    secs: u64,
    nanos: u32,
}

/// Whole seconds in a count of microseconds.
pub open spec fn secs_of_micros(usec: u64) -> u64 {
    usec / MICROS_PER_SEC
}

/// Nanoseconds beyond the whole seconds in a count of microseconds.
pub open spec fn nanos_of_micros(usec: u64) -> int {
    (usec % MICROS_PER_SEC) as int * NANOS_PER_MICRO as int
}

impl FpgaDuration {
    /// Whole seconds.
    pub closed spec fn secs_spec(&self) -> u64 {
        self.secs
    }

    /// Nanoseconds beyond the whole seconds.
    pub closed spec fn nanos_spec(&self) -> u32 {
        self.nanos
    }

    /// The nanosecond part is always less than one second.
    pub open spec fn wf(&self) -> bool {
        self.nanos_spec() < 1_000_000_000
    }

    /// The span of `usec` microseconds.
    pub fn from_micros(usec: u64) -> (d: FpgaDuration)
        ensures
            d.wf(),
            d.secs_spec() == secs_of_micros(usec),
            d.nanos_spec() == nanos_of_micros(usec),
            d.secs_spec() as int * 1_000_000_000 + d.nanos_spec() as int == usec as int * 1000,
    {
        let secs: u64 = usec / MICROS_PER_SEC;
        let nanos: u32 = (usec % MICROS_PER_SEC) as u32 * NANOS_PER_MICRO;
        proof {
            assert(usec as int == (usec / MICROS_PER_SEC) as int * 1_000_000 + (usec % MICROS_PER_SEC) as int);
        }
        FpgaDuration { secs, nanos }
    }

    /// Whole seconds.
    pub fn as_secs(&self) -> (r: u64)
        ensures
            r == self.secs_spec(),
    {
        self.secs
    }

    /// Nanoseconds beyond the whole seconds.
    pub fn subsec_nanos(&self) -> (r: u32)
        ensures
            r == self.nanos_spec(),
    {
        self.nanos
    }
}

} // verus!
