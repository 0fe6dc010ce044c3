//! A span of time with nanosecond precision.
//!
//! `Duration` has the range and the saturating semantics of the standard
//! library's duration: whole seconds that fit in a `u64`, plus less than one
//! second of nanoseconds. Its view is the total number of nanoseconds.
use vstd::prelude::*;

verus! {

/// The number of nanoseconds in one second.
pub const NANOS_PER_SEC: u64 = 1_000_000_000;

/// The number of nanoseconds in one millisecond.
pub const NANOS_PER_MILLI: u64 = 1_000_000;

/// The largest number of nanoseconds a `Duration` can hold: `u64::MAX`
/// seconds plus 999_999_999 nanoseconds.
pub const MAX_TOTAL_NANOS: u128 = 18_446_744_073_709_551_615_999_999_999;

/// The largest duration, as a number of nanoseconds.
pub open spec fn max_nanos() -> nat {
    MAX_TOTAL_NANOS as nat
}

/// A span of time, counted in nanoseconds.
#[derive(Clone, Copy, Debug, PartialEq, Eq, Hash, Structural)]
pub struct Duration {
    total_nanos: u128,
}

impl View for Duration {
    type V = nat;

    /// The number of nanoseconds the span lasts.
    closed spec fn view(&self) -> nat {
        if self.total_nanos <= MAX_TOTAL_NANOS {
            self.total_nanos as nat
        } else {
            max_nanos()
        }
    }
}

impl Duration {
    #[verifier::type_invariant]
    spec fn in_range(self) -> bool {
        self.total_nanos <= MAX_TOTAL_NANOS
    }

    /// No duration lasts longer than the largest duration.
    pub proof fn lemma_view_bounded(d: Duration)
        ensures
            d@ <= max_nanos(),
    {
    }

    /// The empty span.
    pub fn zero() -> (d: Duration)
        ensures
            d@ == 0,
    {
        Duration { total_nanos: 0 }
    }

    /// The largest span, `u64::MAX` seconds and 999_999_999 nanoseconds.
    pub fn max_value() -> (d: Duration)
        ensures
            d@ == max_nanos(),
    {
        Duration { total_nanos: MAX_TOTAL_NANOS }
    }

    /// `secs` seconds and `nanos` nanoseconds; nanoseconds of a second or
    /// more carry into the seconds.
    pub fn new(secs: u64, nanos: u32) -> (d: Duration)
        requires
            secs * NANOS_PER_SEC + nanos <= max_nanos(),
        ensures
            d@ == secs * NANOS_PER_SEC + nanos,
    {
        assert(secs * 1_000_000_000u128 <= u64::MAX * 1_000_000_000u128) by (nonlinear_arith)
            requires
                secs <= u64::MAX,
        ;
        let total: u128 = (secs as u128) * (NANOS_PER_SEC as u128) + (nanos as u128);
        Duration { total_nanos: total }
    }

    /// A span of `nanos` nanoseconds.
    pub fn from_nanos(nanos: u64) -> (d: Duration)
        ensures
            d@ == nanos,
    {
        Duration { total_nanos: nanos as u128 }
    }

    /// A span of `millis` milliseconds.
    pub fn from_millis(millis: u64) -> (d: Duration)
        ensures
            d@ == millis * NANOS_PER_MILLI,
    {
        assert(millis * 1_000_000u128 <= u64::MAX * 1_000_000u128) by (nonlinear_arith)
            requires
                millis <= u64::MAX,
        ;
        Duration { total_nanos: (millis as u128) * (NANOS_PER_MILLI as u128) }
    }

    /// A span of `secs` seconds.
    pub fn from_secs(secs: u64) -> (d: Duration)
        ensures
            d@ == secs * NANOS_PER_SEC,
    {
        assert(secs * 1_000_000_000u128 <= u64::MAX * 1_000_000_000u128) by (nonlinear_arith)
            requires
                secs <= u64::MAX,
        ;
        Duration { total_nanos: (secs as u128) * (NANOS_PER_SEC as u128) }
    }

    /// The total number of nanoseconds.
    pub fn as_nanos(&self) -> (n: u128)
        ensures
            n == self@,
    {
        proof {
            use_type_invariant(self);
        }
        self.total_nanos
    }

    /// The number of whole seconds.
    pub fn as_secs(&self) -> (s: u64)
        ensures
            s == self@ / (NANOS_PER_SEC as nat),
    {
        proof {
            use_type_invariant(self);
        }
        (self.total_nanos / (NANOS_PER_SEC as u128)) as u64
    }

    /// The nanoseconds left over after the whole seconds.
    pub fn subsec_nanos(&self) -> (n: u32)
        ensures
            n == self@ % (NANOS_PER_SEC as nat),
            n < NANOS_PER_SEC,
    {
        proof {
            use_type_invariant(self);
        }
        (self.total_nanos % (NANOS_PER_SEC as u128)) as u32
    }

    /// Whether the two spans last equally long.
    pub fn same_as(&self, other: &Duration) -> (b: bool)
        ensures
            b == (self@ == other@),
            b == (*self == *other),
    {
        proof {
            use_type_invariant(self);
            use_type_invariant(other);
        }
        self.total_nanos == other.total_nanos
    }

    /// Whether `self` is a shorter span than `other`.
    pub fn is_shorter_than(&self, other: &Duration) -> (b: bool)
        ensures
            b == (self@ < other@),
    {
        proof {
            use_type_invariant(self);
            use_type_invariant(other);
        }
        self.total_nanos < other.total_nanos
    }

    /// The shorter of the two spans (`self` when they are equal).
    pub fn min(self, other: Duration) -> (d: Duration)
        ensures
            d@ == if self@ <= other@ { self@ } else { other@ },
            d == if self@ <= other@ { self } else { other },
    {
        proof {
            use_type_invariant(&self);
            use_type_invariant(&other);
        }
        if self.total_nanos <= other.total_nanos {
            self
        } else {
            other
        }
    }

    /// `self - other`, for a shorter or equal `other`.
    pub fn sub(self, other: Duration) -> (d: Duration)
        requires
            other@ <= self@,
        ensures
            d@ == self@ - other@,
    {
        proof {
            use_type_invariant(&self);
            use_type_invariant(&other);
        }
        Duration { total_nanos: self.total_nanos - other.total_nanos }
    }

    /// `self + other`, or the largest duration where the sum exceeds it.
    pub fn saturating_add(self, other: Duration) -> (d: Duration)
        ensures
            d@ == if self@ + other@ <= max_nanos() { self@ + other@ } else { max_nanos() },
    {
        proof {
            use_type_invariant(&self);
            use_type_invariant(&other);
        }
        let sum: u128 = self.total_nanos + other.total_nanos;
        if sum <= MAX_TOTAL_NANOS {
            Duration { total_nanos: sum }
        } else {
            Duration { total_nanos: MAX_TOTAL_NANOS }
        }
    }

    /// `self - other`, or zero where `other` is the longer span.
    pub fn saturating_sub(self, other: Duration) -> (d: Duration)
        ensures
            d@ == if other@ <= self@ { self@ - other@ } else { 0 },
    {
        proof {
            use_type_invariant(&self);
            use_type_invariant(&other);
        }
        if other.total_nanos <= self.total_nanos {
            Duration { total_nanos: self.total_nanos - other.total_nanos }
        } else {
            Duration { total_nanos: 0 }
        }
    }
}

} // verus!
