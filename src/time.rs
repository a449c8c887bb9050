//! Monotonic instants and durations, counted in nanoseconds.
use vstd::prelude::*;

verus! {

/// The largest number of milliseconds that a [`Duration`] can hold.
pub const MAX_MILLIS: u64 = 18_446_744_073_709;

/// A span of time, in nanoseconds.
#[derive(Debug, Clone, Copy, PartialEq, Eq, Structural, Hash)]
pub struct Duration {
    pub nanos: u64,
}

impl Duration {
    /// A duration of the given number of nanoseconds.
    pub fn from_nanos(nanos: u64) -> (r: Duration)
        ensures
            r.nanos == nanos,
    {
        Duration { nanos }
    }

    /// A duration of the given number of milliseconds.
    pub fn from_millis(millis: u64) -> (r: Duration)
        requires
            millis <= MAX_MILLIS,
        ensures
            r.nanos == millis * 1_000_000,
    {
        Duration { nanos: millis * 1_000_000 }
    }
}

/// A point on a monotonic clock: nanoseconds since an arbitrary origin.
///
/// Instants are ordered by the time they stand for.
#[derive(Debug, Clone, Copy, PartialEq, Eq, Structural, Hash, Ord)]
pub struct Instant {
    pub nanos: u64,
}

/// The three-way comparison of two integers.
pub open spec fn compare_nat(a: int, b: int) -> core::cmp::Ordering {
    if a < b {
        core::cmp::Ordering::Less
    } else if a == b {
        core::cmp::Ordering::Equal
    } else {
        core::cmp::Ordering::Greater
    }
}

impl Instant {
    /// The instant that lies `nanos` nanoseconds after the clock's origin.
    pub fn from_nanos(nanos: u64) -> (r: Instant)
        ensures
            r.nanos == nanos,
    {
        Instant { nanos }
    }

    /// The instant that lies `d` after this one, or `None` where the clock
    /// cannot count that far.
    pub fn checked_add(self, d: Duration) -> (r: Option<Instant>)
        ensures
            self.nanos + d.nanos <= u64::MAX ==> r == Some(Instant { nanos: (self.nanos + d.nanos) as u64 }),
            self.nanos + d.nanos > u64::MAX ==> r is None,
    {
        match self.nanos.checked_add(d.nanos) {
            Some(n) => Some(Instant { nanos: n }),
            None => None,
        }
    }
}

impl PartialOrd for Instant {
    fn partial_cmp(&self, other: &Instant) -> (r: Option<core::cmp::Ordering>)
        ensures
            r == Some(compare_nat(self.nanos as int, other.nanos as int)),
    {
        if self.nanos < other.nanos {
            Some(core::cmp::Ordering::Less)
        } else if self.nanos == other.nanos {
            Some(core::cmp::Ordering::Equal)
        } else {
            Some(core::cmp::Ordering::Greater)
        }
    }
}

impl vstd::std_specs::cmp::PartialOrdSpecImpl for Instant {
    open spec fn obeys_partial_cmp_spec() -> bool {
        true
    }

    open spec fn partial_cmp_spec(&self, other: &Instant) -> Option<core::cmp::Ordering> {
        Some(compare_nat(self.nanos as int, other.nanos as int))
    }
}

} // verus!
