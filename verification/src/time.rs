//! Time values used by the twin: a [`Duration`] (whole seconds plus subsecond nanoseconds) and a
//! monotonic [`Instant`] read against an arbitrary origin.
//!
//! Both are plain values: reading a clock happens at the edge of the runtime, which hands the
//! library the readings. Every contract speaks of the exact nanosecond count (`@`).
use vstd::prelude::*;

verus! {

/// Nanoseconds in one second.
pub const NANOS_PER_SEC: u32 = 1_000_000_000;

/// A span of time, split like `std::time::Duration` into whole seconds and subsecond nanos.
#[derive(Debug, Clone, Copy, PartialEq, Eq, PartialOrd, Ord, Hash)]
pub struct Duration {
    secs: u64,
    nanos: u32,
}

impl View for Duration {
    type V = nat;

    /// The exact length in nanoseconds.
    closed spec fn view(&self) -> nat {
        (self.secs * 1_000_000_000 + self.nanos) as nat
    }
}

/// Largest length a [`Duration`] can hold, in nanoseconds.
pub open spec fn max_duration_nanos() -> nat {
    (u64::MAX as nat) * 1_000_000_000 + 999_999_999
}

impl Duration {
    #[verifier::type_invariant]
    closed spec fn subsec_in_range(self) -> bool {
        self.nanos < 1_000_000_000
    }

    /// The empty span.
    pub fn zero() -> (d: Duration)
        ensures
            d@ == 0,
    {
        Duration { secs: 0, nanos: 0 }
    }

    /// `secs` seconds plus `nanos` nanoseconds; nanoseconds beyond one second carry into seconds.
    pub fn new(secs: u64, nanos: u32) -> (d: Duration)
        requires
            secs + nanos / 1_000_000_000 <= u64::MAX,
        ensures
            d@ == secs * 1_000_000_000 + nanos,
    {
        let carry: u64 = (nanos / NANOS_PER_SEC) as u64;
        let rest: u32 = nanos % NANOS_PER_SEC;
        Duration { secs: secs + carry, nanos: rest }
    }

    /// `secs` whole seconds.
    pub fn from_secs(secs: u64) -> (d: Duration)
        ensures
            d@ == secs * 1_000_000_000,
    {
        Duration { secs, nanos: 0 }
    }

    /// `millis` milliseconds.
    pub fn from_millis(millis: u64) -> (d: Duration)
        ensures
            d@ == millis * 1_000_000,
    {
        let secs: u64 = millis / 1000;
        let sub: u64 = millis % 1000;
        let nanos: u32 = (sub * 1_000_000) as u32;
        Duration { secs, nanos }
    }

    /// `nanos` nanoseconds.
    pub fn from_nanos(nanos: u64) -> (d: Duration)
        ensures
            d@ == nanos,
    {
        let secs: u64 = nanos / 1_000_000_000;
        let sub: u32 = (nanos % 1_000_000_000) as u32;
        Duration { secs, nanos: sub }
    }

    /// Whole seconds.
    pub fn as_secs(&self) -> (s: u64)
        ensures
            s == self@ / 1_000_000_000,
    {
        proof {
            use_type_invariant(self);
        }
        self.secs
    }

    /// Subsecond part in nanoseconds (`0..=999_999_999`).
    pub fn subsec_nanos(&self) -> (n: u32)
        ensures
            n == self@ % 1_000_000_000,
            n < 1_000_000_000,
    {
        proof {
            use_type_invariant(self);
        }
        self.nanos
    }

    /// `self - other`, or zero when `other` is longer.
    pub fn saturating_sub(&self, other: &Duration) -> (d: Duration)
        ensures
            d@ == if self@ >= other@ { self@ - other@ } else { 0 },
    {
        proof {
            use_type_invariant(self);
            use_type_invariant(other);
        }
        if self.secs > other.secs || (self.secs == other.secs && self.nanos >= other.nanos) {
            if self.nanos >= other.nanos {
                Duration { secs: self.secs - other.secs, nanos: self.nanos - other.nanos }
            } else {
                Duration {
                    secs: self.secs - other.secs - 1,
                    nanos: self.nanos + NANOS_PER_SEC - other.nanos,
                }
            }
        } else {
            Duration { secs: 0, nanos: 0 }
        }
    }

    /// `self + other`, or `None` when the sum leaves the representable range.
    pub fn checked_add(&self, other: &Duration) -> (r: Option<Duration>)
        ensures
            r matches Some(d) ==> d@ == self@ + other@,
            r is None <==> self@ + other@ > max_duration_nanos(),
    {
        proof {
            use_type_invariant(self);
            use_type_invariant(other);
        }
        let nanos_sum: u32 = self.nanos + other.nanos;
        let carry: u64 = if nanos_sum >= NANOS_PER_SEC { 1 } else { 0 };
        let nanos: u32 = if nanos_sum >= NANOS_PER_SEC { nanos_sum - NANOS_PER_SEC } else { nanos_sum };
        if self.secs > u64::MAX - other.secs {
            None
        } else if self.secs + other.secs > u64::MAX - carry {
            None
        } else {
            Some(Duration { secs: self.secs + other.secs + carry, nanos })
        }
    }

    /// `self + other`; the sum must be representable.
    pub fn plus(&self, other: &Duration) -> (d: Duration)
        requires
            self@ + other@ <= max_duration_nanos(),
        ensures
            d@ == self@ + other@,
    {
        match self.checked_add(other) {
            Some(d) => d,
            None => {
                assert(false);
                Duration::zero()
            },
        }
    }

    /// Whether `self` is at least as long as `other`.
    pub fn at_least(&self, other: &Duration) -> (b: bool)
        ensures
            b == (self@ >= other@),
    {
        proof {
            use_type_invariant(self);
            use_type_invariant(other);
        }
        self.secs > other.secs || (self.secs == other.secs && self.nanos >= other.nanos)
    }

    /// Whether the two spans are equally long.
    pub fn same_as(&self, other: &Duration) -> (b: bool)
        ensures
            b == (self@ == other@),
            b == (*self == *other),
    {
        proof {
            use_type_invariant(self);
            use_type_invariant(other);
            if self@ == other@ {
                let (a, c) = (self.secs as int, other.secs as int);
                let (x, y) = (self.nanos as int, other.nanos as int);
                assert(a == c && x == y) by (nonlinear_arith)
                    requires
                        a * 1_000_000_000 + x == c * 1_000_000_000 + y,
                        0 <= x < 1_000_000_000,
                        0 <= y < 1_000_000_000,
                ;
            }
        }
        self.secs == other.secs && self.nanos == other.nanos
    }
}

/// A reading of a monotonic clock: nanoseconds elapsed since the clock's (arbitrary) origin.
#[derive(Debug, Clone, Copy, PartialEq, Eq, PartialOrd, Ord, Hash)]
pub struct Instant {
    nanos: u64,
}

impl View for Instant {
    type V = nat;

    /// Nanoseconds since the clock's origin.
    closed spec fn view(&self) -> nat {
        self.nanos as nat
    }
}

impl Instant {
    /// The instant `nanos` nanoseconds after the clock's origin.
    pub fn from_nanos(nanos: u64) -> (t: Instant)
        ensures
            t@ == nanos,
    {
        Instant { nanos }
    }

    /// Nanoseconds since the clock's origin.
    pub fn as_nanos(&self) -> (n: u64)
        ensures
            n == self@,
    {
        self.nanos
    }

    /// Time since the clock's origin.
    pub fn duration_since_origin(&self) -> (d: Duration)
        ensures
            d@ == self@,
    {
        Duration::from_nanos(self.nanos)
    }

    /// Whether the two readings are the same instant.
    pub fn same_as(&self, other: &Instant) -> (b: bool)
        ensures
            b == (self@ == other@),
            b == (*self == *other),
    {
        self.nanos == other.nanos
    }

    /// Time elapsed from `earlier` to `self`, or `None` when `earlier` is later.
    pub fn checked_duration_since(&self, earlier: &Instant) -> (r: Option<Duration>)
        ensures
            r matches Some(d) ==> d@ == self@ - earlier@,
            r is None <==> self@ < earlier@,
    {
        if self.nanos >= earlier.nanos {
            Some(Duration::from_nanos(self.nanos - earlier.nanos))
        } else {
            None
        }
    }

    /// Time elapsed from `earlier` to `self`, or zero when `earlier` is later.
    pub fn saturating_duration_since(&self, earlier: &Instant) -> (d: Duration)
        ensures
            d@ == if self@ >= earlier@ { self@ - earlier@ } else { 0 },
            d@ <= u64::MAX,
    {
        if self.nanos >= earlier.nanos {
            Duration::from_nanos(self.nanos - earlier.nanos)
        } else {
            Duration::zero()
        }
    }

    /// The instant `d` after `self`, or `None` when it does not fit the clock.
    pub fn checked_add(&self, d: &Duration) -> (r: Option<Instant>)
        ensures
            r matches Some(t) ==> t@ == self@ + d@,
            r is None <==> self@ + d@ > u64::MAX,
    {
        let secs = d.as_secs();
        let sub = d.subsec_nanos();
        if secs > (u64::MAX - self.nanos) / 1_000_000_000 {
            proof {
                assert(d@ >= secs * 1_000_000_000);
                assert(secs * 1_000_000_000 > u64::MAX - self.nanos) by (nonlinear_arith)
                    requires
                        secs > (u64::MAX - self.nanos) / 1_000_000_000,
                ;
            }
            return None;
        }
        let whole: u64 = secs * 1_000_000_000;
        if whole > u64::MAX - self.nanos {
            return None;
        }
        if sub as u64 > u64::MAX - self.nanos - whole {
            return None;
        }
        Some(Instant { nanos: self.nanos + whole + sub as u64 })
    }
}

} // verus!
