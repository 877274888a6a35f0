//! Spans of time as plain values.

use vstd::prelude::*;

verus! {

pub const NANOS_PER_SEC: u32 = 1_000_000_000;

pub const NANOS_PER_MILLI: u32 = 1_000_000;

pub const MILLIS_PER_SEC: u64 = 1_000;

/// A span of time: whole seconds and the nanoseconds beyond them.
#[derive(Clone, Copy, Debug, PartialEq, Eq, Structural)]
pub struct Duration {
    secs: u64,
    nanos: u32,
}

impl Duration {
    #[verifier::type_invariant]
    spec fn well_formed(self) -> bool {
        self.nanos < NANOS_PER_SEC
    }

    /// The span in nanoseconds.
    pub closed spec fn as_nanos(self) -> nat {
        (self.secs as nat) * (NANOS_PER_SEC as nat) + (self.nanos as nat)
    }

    /// The whole seconds of the span.
    pub closed spec fn spec_as_secs(&self) -> u64 {
        self.secs
    }

    /// The nanoseconds beyond the whole seconds.
    pub closed spec fn spec_subsec_nanos(&self) -> u32 {
        self.nanos
    }

    /// A span of `secs` seconds and `nanos` nanoseconds. A thousand
    /// million nanoseconds or more count as whole seconds; the span must
    /// not be longer than `u64::MAX` seconds.
    pub fn new(secs: u64, nanos: u32) -> (d: Duration)
        requires
            secs + nanos / NANOS_PER_SEC <= u64::MAX,
        ensures
            d.as_nanos() == secs * NANOS_PER_SEC + nanos,
            d.spec_as_secs() == secs + nanos / NANOS_PER_SEC,
            d.spec_subsec_nanos() == nanos % NANOS_PER_SEC,
    {
        let whole: u32 = nanos / NANOS_PER_SEC;
        let rest: u32 = nanos % NANOS_PER_SEC;
        let d = Duration { secs: secs + whole as u64, nanos: rest };
        assert((secs + whole) * 1_000_000_000 + rest == secs * 1_000_000_000 + nanos)
            by (nonlinear_arith)
            requires
                whole == nanos / 1_000_000_000,
                rest == nanos % 1_000_000_000,
        ;
        d
    }

    /// A span of `millis` milliseconds.
    pub closed spec fn spec_from_millis(millis: u64) -> Duration {
        Duration {
            secs: millis / MILLIS_PER_SEC,
            nanos: ((millis % MILLIS_PER_SEC) * NANOS_PER_MILLI) as u32,
        }
    }

    /// A span of `millis` milliseconds.
    #[verifier::when_used_as_spec(spec_from_millis)]
    pub fn from_millis(millis: u64) -> (d: Duration)
        ensures
            d == Duration::spec_from_millis(millis),
            d.as_nanos() == millis * NANOS_PER_MILLI,
            d.spec_as_secs() == millis / MILLIS_PER_SEC,
            d.spec_subsec_nanos() == (millis % MILLIS_PER_SEC) * NANOS_PER_MILLI,
    {
        let secs: u64 = millis / MILLIS_PER_SEC;
        let rest: u32 = (millis % MILLIS_PER_SEC) as u32;
        let nanos: u32 = rest * NANOS_PER_MILLI;
        Duration { secs, nanos }
    }

    /// A span of `secs` seconds.
    pub fn from_secs(secs: u64) -> (d: Duration)
        ensures
            d.as_nanos() == secs * NANOS_PER_SEC,
            d.spec_as_secs() == secs,
            d.spec_subsec_nanos() == 0,
    {
        Duration { secs, nanos: 0 }
    }

    #[verifier::when_used_as_spec(spec_as_secs)]
    pub fn as_secs(&self) -> (s: u64)
        ensures
            s == self.spec_as_secs(),
    {
        self.secs
    }

    #[verifier::when_used_as_spec(spec_subsec_nanos)]
    pub fn subsec_nanos(&self) -> (n: u32)
        ensures
            n == self.spec_subsec_nanos(),
            n < NANOS_PER_SEC,
    {
        proof {
            use_type_invariant(self);
        }
        self.nanos
    }

    /// The span in whole milliseconds.
    pub fn as_millis(&self) -> (m: u128)
        ensures
            m == self.as_nanos() / (NANOS_PER_MILLI as nat),
    {
        proof {
            use_type_invariant(self);
        }
        assert(self.secs * 1_000 <= u64::MAX * 1_000) by (nonlinear_arith);
        let whole: u128 = (self.secs as u128) * (MILLIS_PER_SEC as u128);
        let part: u128 = (self.nanos / NANOS_PER_MILLI) as u128;
        assert((self.secs * 1_000_000_000 + self.nanos) / 1_000_000 == self.secs * 1_000
            + self.nanos / 1_000_000) by (nonlinear_arith)
            requires
                self.nanos >= 0,
        ;
        whole + part
    }

    /// Whether the span is empty.
    pub fn is_zero(&self) -> (b: bool)
        ensures
            b == (self.as_nanos() == 0),
    {
        self.secs == 0 && self.nanos == 0
    }

    /// Whether this span is strictly longer than `other`.
    pub fn is_longer_than(&self, other: &Duration) -> (b: bool)
        ensures
            b == (self.as_nanos() > other.as_nanos()),
    {
        proof {
            use_type_invariant(self);
            use_type_invariant(other);
        }
        self.secs > other.secs || (self.secs == other.secs && self.nanos > other.nanos)
    }
}

/// A span made from milliseconds is as long as they are.
pub proof fn lemma_from_millis(millis: u64)
    ensures
        Duration::spec_from_millis(millis).as_nanos() == millis * NANOS_PER_MILLI,
        Duration::spec_from_millis(millis).spec_as_secs() == millis / MILLIS_PER_SEC,
        Duration::spec_from_millis(millis).spec_subsec_nanos() == (millis % MILLIS_PER_SEC)
            * NANOS_PER_MILLI,
{
}

} // verus!
