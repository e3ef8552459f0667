//! Non-negative spans of time with nanosecond resolution.
use vstd::prelude::*;

verus! {

/// Nanoseconds in one second.
pub const NANOS_PER_SEC: u32 = 1_000_000_000;

/// A non-negative span of time: whole seconds plus a sub-second nanosecond
/// part, the same resolution and range as `std::time::Duration`.
#[derive(Debug, Clone, Copy, PartialEq, Eq, Structural)]
pub struct TimeSpan {
    secs: u64,
    nanos: u32,
}

impl View for TimeSpan {
    type V = nat;

    /// Total length in nanoseconds.
    closed spec fn view(&self) -> nat {
        (self.secs as nat) * (NANOS_PER_SEC as nat) + (self.nanos as nat)
    }
}

impl TimeSpan {
    #[verifier::type_invariant]
    closed spec fn well_formed(&self) -> bool {
        self.nanos < NANOS_PER_SEC
    }

    /// Whole seconds of the span.
    pub closed spec fn spec_secs(&self) -> u64 {
        self.secs
    }

    /// Sub-second nanoseconds of the span.
    pub closed spec fn spec_subsec_nanos(&self) -> u32 {
        self.nanos
    }

    /// The largest representable span (`u64::MAX` seconds and 999 999 999
    /// nanoseconds).
    pub open spec fn max_nanos() -> nat {
        ((u64::MAX as nat) * (NANOS_PER_SEC as nat) + (NANOS_PER_SEC as nat) - 1) as nat
    }

    proof fn lemma_view(&self)
        requires
            self.nanos < NANOS_PER_SEC,
        ensures
            self@ == (self.secs as nat) * 1_000_000_000 + (self.nanos as nat),
            self@ <= Self::max_nanos(),
            self@ / 1_000_000_000 == self.secs,
            self@ % 1_000_000_000 == self.nanos,
    {
        let s = self.secs as nat;
        let n = self.nanos as nat;
        assert(s * 1_000_000_000 <= (u64::MAX as nat) * 1_000_000_000) by (nonlinear_arith)
            requires
                s <= u64::MAX,
        ;
        assert((s * 1_000_000_000 + n) / 1_000_000_000 == s) by (nonlinear_arith)
            requires
                n < 1_000_000_000,
        ;
        assert((s * 1_000_000_000 + n) % 1_000_000_000 == n) by (nonlinear_arith)
            requires
                n < 1_000_000_000,
        ;
    }

    /// The empty span.
    pub fn zero() -> (r: Self)
        ensures
            r@ == 0,
    {
        TimeSpan { secs: 0, nanos: 0 }
    }

    /// The span of `secs` whole seconds, as a value.
    pub closed spec fn spec_from_secs(secs: u64) -> Self {
        TimeSpan { secs, nanos: 0 }
    }

    /// The span of `secs` whole seconds is `secs` times 10^9 nanoseconds.
    pub proof fn lemma_from_secs_view(secs: u64)
        ensures
            Self::spec_from_secs(secs)@ == secs * 1_000_000_000,
    {
    }

    /// A span of `secs` whole seconds.
    pub fn from_secs(secs: u64) -> (r: Self)
        ensures
            r == Self::spec_from_secs(secs),
            r@ == secs * 1_000_000_000,
            r.spec_secs() == secs,
            r.spec_subsec_nanos() == 0,
    {
        TimeSpan { secs, nanos: 0 }
    }

    /// The span of `millis` milliseconds, as a value.
    pub closed spec fn spec_from_millis(millis: u64) -> Self {
        TimeSpan { secs: millis / 1000, nanos: ((millis % 1000) * 1_000_000) as u32 }
    }

    /// A span of `millis` milliseconds.
    pub fn from_millis(millis: u64) -> (r: Self)
        ensures
            r == Self::spec_from_millis(millis),
            r@ == millis * 1_000_000,
    {
        let secs = millis / 1000;
        let rem = millis % 1000;
        let nanos = (rem as u32) * 1_000_000;
        let r = TimeSpan { secs, nanos };
        assert(r@ == millis * 1_000_000) by (nonlinear_arith)
            requires
                r@ == (secs as nat) * 1_000_000_000 + (nanos as nat),
                secs == millis / 1000,
                nanos == (millis % 1000) * 1_000_000,
        ;
        r
    }

    /// Builds a span from whole seconds and sub-second nanoseconds.
    pub fn from_parts(secs: u64, nanos: u32) -> (r: Self)
        requires
            nanos < NANOS_PER_SEC,
        ensures
            r.spec_secs() == secs,
            r.spec_subsec_nanos() == nanos,
            r@ == (secs as nat) * 1_000_000_000 + (nanos as nat),
    {
        TimeSpan { secs, nanos }
    }

    /// Whole seconds of the span.
    pub fn secs(&self) -> (r: u64)
        ensures
            r == self.spec_secs(),
            r == self@ / 1_000_000_000,
    {
        proof {
            use_type_invariant(self);
            self.lemma_view();
        }
        self.secs
    }

    /// Sub-second nanoseconds of the span.
    pub fn subsec_nanos(&self) -> (r: u32)
        ensures
            r == self.spec_subsec_nanos(),
            r == self@ % 1_000_000_000,
            r < NANOS_PER_SEC,
    {
        proof {
            use_type_invariant(self);
            self.lemma_view();
        }
        self.nanos
    }

    /// Whether the span is empty.
    pub fn is_zero(&self) -> (r: bool)
        ensures
            r == (self@ == 0),
    {
        self.secs == 0 && self.nanos == 0
    }

    /// Whether `self` is strictly shorter than `other`.
    pub fn lt(&self, other: &Self) -> (r: bool)
        ensures
            r == (self@ < other@),
    {
        proof {
            use_type_invariant(self);
            use_type_invariant(other);
            self.lemma_view();
            other.lemma_view();
        }
        self.secs < other.secs || (self.secs == other.secs && self.nanos < other.nanos)
    }

    /// `self - other` when `other` is not longer than `self`, else zero.
    pub fn saturating_sub(&self, other: &Self) -> (r: Self)
        ensures
            r@ == if self@ >= other@ { self@ - other@ } else { 0 },
    {
        proof {
            use_type_invariant(self);
            use_type_invariant(other);
            self.lemma_view();
            other.lemma_view();
        }
        if self.lt(other) {
            return TimeSpan::zero();
        }
        if self.nanos >= other.nanos {
            TimeSpan { secs: self.secs - other.secs, nanos: self.nanos - other.nanos }
        } else {
            TimeSpan { secs: self.secs - other.secs - 1, nanos: self.nanos + NANOS_PER_SEC - other.nanos }
        }
    }

    /// A span of `millis` milliseconds, at least one millisecond.
    pub fn from_millis_at_least_one(millis: u64) -> (r: Self)
        ensures
            r@ == (if millis == 0 { 1 } else { millis as nat }) * 1_000_000,
    {
        if millis == 0 {
            TimeSpan::from_millis(1)
        } else {
            TimeSpan::from_millis(millis)
        }
    }
}

} // verus!
