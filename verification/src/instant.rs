//! Absolute instants with nanosecond resolution.

use vstd::prelude::*;

verus! {

/// Nanoseconds in one second.
pub const NANOS_PER_SEC: u32 = 1_000_000_000;

/// Seconds in one hour.
pub const SECS_PER_HOUR: i64 = 3_600;

/// Seconds in one civil day.
pub const SECS_PER_DAY: i64 = 86_400;

/// First second of the supported range: 0000-01-01T00:00:00Z.
pub const MIN_SECS: i64 = -62_167_219_200;

/// Last second of the supported range: 9999-12-31T23:59:59Z.
pub const MAX_SECS: i64 = 253_402_300_799;

/// An absolute instant: whole seconds since 1970-01-01T00:00:00Z and the
/// nanoseconds past that second.
#[derive(Clone, Copy, Debug, PartialEq, Eq, Structural)]
pub struct Instant {
    pub secs: i64,
    pub nanos: u32,
}

impl Instant {
    /// The nanosecond part stays below one second.
    pub open spec fn wf(self) -> bool {
        self.nanos < NANOS_PER_SEC
    }

    /// The instant lies in the years 0000 to 9999, the range in which the
    /// calendar functions of this library work.
    pub open spec fn on_calendar(self) -> bool {
        self.wf() && MIN_SECS <= self.secs <= MAX_SECS
    }

    /// Nanoseconds since the epoch.
    pub open spec fn as_nanos(self) -> int {
        self.secs as int * (NANOS_PER_SEC as int) + self.nanos as int
    }

    /// The number of the UTC day that holds the instant, counted from the epoch.
    pub open spec fn utc_day(self) -> int {
        self.secs as int / (SECS_PER_DAY as int)
    }

    /// The instant that a timestamp names, held within the supported range:
    /// seconds outside it are moved to its nearest end, and a nanosecond part
    /// of a second or more (a leap second) to the last nanosecond.
    pub open spec fn spec_from_timestamp(secs: i64, nanos: u32) -> Instant {
        Instant {
            secs: if secs < MIN_SECS {
                MIN_SECS
            } else if secs > MAX_SECS {
                MAX_SECS
            } else {
                secs
            },
            nanos: if nanos < NANOS_PER_SEC {
                nanos
            } else {
                (NANOS_PER_SEC - 1) as u32
            },
        }
    }

    /// Builds the instant that a timestamp names; see `spec_from_timestamp`.
    pub fn from_timestamp(secs: i64, nanos: u32) -> (t: Instant)
        ensures
            t == Self::spec_from_timestamp(secs, nanos),
            t.on_calendar(),
    {
        let secs: i64 = if secs < MIN_SECS {
            MIN_SECS
        } else if secs > MAX_SECS {
            MAX_SECS
        } else {
            secs
        };
        let nanos: u32 = if nanos < NANOS_PER_SEC {
            nanos
        } else {
            NANOS_PER_SEC - 1
        };
        Instant { secs, nanos }
    }

    /// The instant `delta` seconds away, held within the supported range.
    pub open spec fn spec_shifted(self, delta: int) -> Instant {
        Instant {
            secs: if self.secs + delta < MIN_SECS {
                MIN_SECS
            } else if self.secs + delta > MAX_SECS {
                MAX_SECS
            } else {
                (self.secs + delta) as i64
            },
            nanos: self.nanos,
        }
    }

    /// Moves the instant by `delta` seconds; see `spec_shifted`.
    pub fn shifted(self, delta: i64) -> (t: Instant)
        requires
            self.on_calendar(),
        ensures
            t == self.spec_shifted(delta as int),
            t.on_calendar(),
    {
        let secs: i64 = if delta < MIN_SECS - self.secs {
            MIN_SECS
        } else if delta > MAX_SECS - self.secs {
            MAX_SECS
        } else {
            self.secs + delta
        };
        Instant { secs, nanos: self.nanos }
    }

    /// Whether `self` comes strictly before `other`.
    pub fn is_before(self, other: Instant) -> (r: bool)
        requires
            self.wf(),
            other.wf(),
        ensures
            r == (self.as_nanos() < other.as_nanos()),
    {
        self.secs < other.secs || (self.secs == other.secs && self.nanos < other.nanos)
    }

    /// The later of two instants.
    pub open spec fn spec_later(self, other: Instant) -> Instant {
        if self.as_nanos() < other.as_nanos() {
            other
        } else {
            self
        }
    }

    /// The earlier of two instants.
    pub open spec fn spec_earlier(self, other: Instant) -> Instant {
        if other.as_nanos() < self.as_nanos() {
            other
        } else {
            self
        }
    }

    /// The later of two instants; `self` where they are equal.
    pub fn later(self, other: Instant) -> (t: Instant)
        requires
            self.wf(),
            other.wf(),
        ensures
            t == self.spec_later(other),
    {
        if self.is_before(other) {
            other
        } else {
            self
        }
    }

    /// The earlier of two instants; `self` where they are equal.
    pub fn earlier(self, other: Instant) -> (t: Instant)
        requires
            self.wf(),
            other.wf(),
        ensures
            t == self.spec_earlier(other),
    {
        if other.is_before(self) {
            other
        } else {
            self
        }
    }

    /// Whole seconds from `self` to `later`, rounded down; zero where `later`
    /// does not come after `self`.
    pub open spec fn spec_whole_seconds_until(self, later: Instant) -> int {
        if self.as_nanos() < later.as_nanos() {
            (later.as_nanos() - self.as_nanos()) / (NANOS_PER_SEC as int)
        } else {
            0
        }
    }

    /// Whole seconds from `self` to `later`; see `spec_whole_seconds_until`.
    pub fn whole_seconds_until(self, later: Instant) -> (r: u64)
        requires
            self.wf(),
            later.wf(),
        ensures
            r == self.spec_whole_seconds_until(later),
    {
        if !self.is_before(later) {
            return 0;
        }
        let gap: i128 = later.secs as i128 - self.secs as i128;
        if later.nanos < self.nanos {
            (gap - 1) as u64
        } else {
            gap as u64
        }
    }
}

} // verus!
