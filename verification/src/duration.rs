use vstd::prelude::*;

verus! {

/// Nanoseconds in one second.
pub const NANOS_PER_SEC: u128 = 1_000_000_000;

/// The longest span a [`Duration`] can hold: `u64::MAX` seconds plus
/// 999,999,999 nanoseconds, counted in nanoseconds.
pub const MAX_NANOS: u128 = 18_446_744_073_709_551_615_999_999_999;

/// The smaller of two natural numbers.
pub open spec fn min_nat(a: nat, b: nat) -> nat {
    if a <= b {
        a
    } else {
        b
    }
}

/// `a - b`, or zero when `b` is larger.
pub open spec fn sub_sat(a: nat, b: nat) -> nat {
    if a >= b {
        (a - b) as nat
    } else {
        0
    }
}

/// A span of time, counted in whole nanoseconds.
///
/// It covers the same range as `core::time::Duration` (up to `u64::MAX`
/// seconds plus a fraction) and its view is the number of nanoseconds.
#[derive(Clone, Copy, Debug, PartialEq, Eq, Structural)]
pub struct Duration {
    nanos: u128,
}

impl View for Duration {
    type V = nat;

    closed spec fn view(&self) -> nat {
        self.nanos as nat
    }
}

impl Duration {
    /// Every duration is at most `MAX_NANOS` long; `use_type_invariant`
    /// on a duration gives this fact to any verified caller.
    #[verifier::type_invariant]
    pub open spec fn in_range(self) -> bool {
        self@ <= MAX_NANOS
    }

    /// The empty duration, as a value of specifications.
    pub closed spec fn spec_zero() -> Duration {
        Duration { nanos: 0 }
    }

    /// The empty duration is empty.
    pub proof fn lemma_spec_zero()
        ensures
            Duration::spec_zero()@ == 0,
    {
    }

    /// The empty duration.
    pub fn zero() -> (r: Duration)
        ensures
            r@ == 0,
            r == Duration::spec_zero(),
    {
        Duration { nanos: 0 }
    }

    /// A duration of `secs` whole seconds.
    pub fn from_secs(secs: u64) -> (r: Duration)
        ensures
            r@ == secs * NANOS_PER_SEC,
    {
        Duration { nanos: (secs as u128) * NANOS_PER_SEC }
    }

    /// A duration of `mins` whole minutes; the number of seconds must fit
    /// in a `u64`.
    pub fn from_mins(mins: u64) -> (r: Duration)
        requires
            mins * 60 <= u64::MAX,
        ensures
            r@ == mins * 60 * NANOS_PER_SEC,
    {
        Duration { nanos: (mins as u128) * 60 * NANOS_PER_SEC }
    }

    /// A duration of `millis` milliseconds.
    pub fn from_millis(millis: u64) -> (r: Duration)
        ensures
            r@ == millis * 1_000_000,
    {
        Duration { nanos: (millis as u128) * 1_000_000 }
    }

    /// The number of whole seconds in this duration.
    pub fn as_secs(&self) -> (r: u64)
        ensures
            r == self@ / NANOS_PER_SEC as nat,
    {
        proof {
            use_type_invariant(self);
        }
        (self.nanos / NANOS_PER_SEC) as u64
    }

    /// The fractional part of this duration, in nanoseconds.
    pub fn subsec_nanos(&self) -> (r: u32)
        ensures
            r == self@ % NANOS_PER_SEC as nat,
            r < NANOS_PER_SEC,
    {
        (self.nanos % NANOS_PER_SEC) as u32
    }

    /// Whether this duration is empty.
    pub fn is_zero(&self) -> (r: bool)
        ensures
            r == (self@ == 0),
    {
        self.nanos == 0
    }

    /// `self - rhs`, or zero when `rhs` is the longer one.
    pub fn saturating_sub(self, rhs: Duration) -> (r: Duration)
        ensures
            r@ == sub_sat(self@, rhs@),
    {
        proof {
            use_type_invariant(&self);
        }
        if self.nanos >= rhs.nanos {
            Duration { nanos: self.nanos - rhs.nanos }
        } else {
            Duration { nanos: 0 }
        }
    }

    /// The shorter of two durations.
    pub fn min(self, other: Duration) -> (r: Duration)
        ensures
            r@ == min_nat(self@, other@),
    {
        if self.nanos <= other.nanos {
            self
        } else {
            other
        }
    }

    /// The sum of two durations; it must not exceed the longest duration.
    pub fn plus(self, rhs: Duration) -> (r: Duration)
        requires
            self@ + rhs@ <= MAX_NANOS,
        ensures
            r@ == self@ + rhs@,
    {
        Duration { nanos: self.nanos + rhs.nanos }
    }

    /// `self - rhs`; `rhs` must not be the longer one.
    pub fn minus(self, rhs: Duration) -> (r: Duration)
        requires
            rhs@ <= self@,
        ensures
            r@ == self@ - rhs@,
    {
        proof {
            use_type_invariant(&self);
        }
        Duration { nanos: self.nanos - rhs.nanos }
    }

    /// This duration repeated `n` times; the product must not exceed the
    /// longest duration.
    pub fn times(self, n: u64) -> (r: Duration)
        requires
            self@ * n <= MAX_NANOS,
        ensures
            r@ == self@ * n,
    {
        Duration { nanos: self.nanos * (n as u128) }
    }
}

} // verus!
