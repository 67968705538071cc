//! Lengths of time.
use vstd::prelude::*;

verus! {

/// How many nanoseconds make up a second.
pub const NANOS_PER_SECOND: u64 = 1_000_000_000;

/// A length of time: whole seconds, and nanoseconds below one second.
#[derive(Debug, Clone, Copy, PartialEq, Eq)]
pub struct TimeSpan {
    secs: u64,
    nanos: u32,
}

impl View for TimeSpan {
    type V = nat;

    /// The length in nanoseconds.
    closed spec fn view(&self) -> nat {
        (self.secs * NANOS_PER_SECOND + self.nanos) as nat
    }
}

/// The longest length of time, in nanoseconds.
pub open spec fn longest() -> nat {
    (u64::MAX * NANOS_PER_SECOND + 999_999_999) as nat
}

impl TimeSpan {
    #[verifier::type_invariant]
    spec fn normal(self) -> bool {
        self.nanos < NANOS_PER_SECOND
    }

    /// `secs` seconds and `nanos` nanoseconds.
    pub fn new(secs: u64, nanos: u32) -> (span: TimeSpan)
        requires
            nanos < NANOS_PER_SECOND,
        ensures
            span@ == secs * NANOS_PER_SECOND + nanos,
    {
        TimeSpan { secs, nanos }
    }

    /// `secs` seconds.
    pub fn from_secs(secs: u64) -> (span: TimeSpan)
        ensures
            span@ == secs * NANOS_PER_SECOND,
    {
        TimeSpan { secs, nanos: 0 }
    }

    /// `millis` milliseconds.
    pub fn from_millis(millis: u64) -> (span: TimeSpan)
        ensures
            span@ == millis * 1_000_000,
    {
        TimeSpan { secs: millis / 1000, nanos: (millis % 1000) as u32 * 1_000_000 }
    }

    /// The whole seconds.
    pub fn as_secs(&self) -> (secs: u64)
        ensures
            secs == self@ / NANOS_PER_SECOND as nat,
    {
        proof {
            use_type_invariant(self);
        }
        self.secs
    }

    /// The nanoseconds beyond the whole seconds.
    pub fn subsec_nanos(&self) -> (nanos: u32)
        ensures
            nanos == self@ % NANOS_PER_SECOND as nat,
            nanos < NANOS_PER_SECOND,
    {
        proof {
            use_type_invariant(self);
        }
        self.nanos
    }

    /// Whether this length is shorter than another.
    pub fn is_shorter(&self, other: &TimeSpan) -> (yes: bool)
        ensures
            yes == (self@ < other@),
    {
        proof {
            use_type_invariant(self);
            use_type_invariant(other);
        }
        self.secs < other.secs || (self.secs == other.secs && self.nanos < other.nanos)
    }

    /// Twice this length, or the longest there is.
    pub fn doubled(&self) -> (span: TimeSpan)
        ensures
            span@ == (if 2 * self@ <= longest() {
                2 * self@
            } else {
                longest()
            }),
    {
        proof {
            use_type_invariant(self);
        }
        let twice: u32 = self.nanos * 2;
        let carry: u64 = if twice >= 1_000_000_000 {
            1
        } else {
            0
        };
        if self.secs > (u64::MAX - carry) / 2 {
            return TimeSpan { secs: u64::MAX, nanos: 999_999_999 };
        }
        let nanos: u32 = if carry == 1 {
            twice - 1_000_000_000
        } else {
            twice
        };
        TimeSpan { secs: self.secs * 2 + carry, nanos }
    }

    /// The shorter of two lengths.
    pub fn shorter(&self, other: &TimeSpan) -> (span: TimeSpan)
        ensures
            span@ == (if other@ < self@ {
                other@
            } else {
                self@
            }),
            self@ <= longest(),
            other@ <= longest(),
    {
        proof {
            use_type_invariant(self);
            use_type_invariant(other);
        }
        if other.is_shorter(self) {
            *other
        } else {
            *self
        }
    }

    /// Both lengths after one another, or the longest there is.
    pub fn plus(&self, other: &TimeSpan) -> (span: TimeSpan)
        ensures
            span@ == (if self@ + other@ <= longest() {
                self@ + other@
            } else {
                longest()
            }),
    {
        proof {
            use_type_invariant(self);
            use_type_invariant(other);
        }
        let sum: u32 = self.nanos + other.nanos;
        let carry: u64 = if sum >= 1_000_000_000 {
            1
        } else {
            0
        };
        let nanos: u32 = if carry == 1 {
            sum - 1_000_000_000
        } else {
            sum
        };
        if other.secs > u64::MAX - self.secs || carry > u64::MAX - self.secs - other.secs {
            return TimeSpan { secs: u64::MAX, nanos: 999_999_999 };
        }
        TimeSpan { secs: self.secs + other.secs + carry, nanos }
    }

    /// What is left of this length once a shorter one has passed.
    pub fn minus(&self, passed: &TimeSpan) -> (span: TimeSpan)
        requires
            passed@ <= self@,
        ensures
            span@ == self@ - passed@,
    {
        proof {
            use_type_invariant(self);
            use_type_invariant(passed);
        }
        if self.nanos >= passed.nanos {
            TimeSpan { secs: self.secs - passed.secs, nanos: self.nanos - passed.nanos }
        } else {
            TimeSpan {
                secs: self.secs - passed.secs - 1,
                nanos: self.nanos + 1_000_000_000 - passed.nanos,
            }
        }
    }
}

}
