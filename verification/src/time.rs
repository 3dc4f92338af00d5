//! Spans of time, counted in nanoseconds, as the clock's period and its
//! timeouts are given.
use vstd::prelude::*;

verus! {

/// Nanoseconds in one second.
pub const NANOS_PER_SEC: u64 = 1_000_000_000;

/// Nanoseconds in one millisecond.
pub const NANOS_PER_MILLI: u64 = 1_000_000;

/// A span of time: whole seconds and the nanoseconds beyond them.
#[derive(Debug, Clone, Copy, PartialEq, Eq, Structural)]
pub struct Duration {
    secs: u64,
    nanos: u32,
}

impl Duration {
    #[verifier::type_invariant]
    spec fn nanos_below_one_second(self) -> bool {
        self.nanos < NANOS_PER_SEC
    }
}

impl View for Duration {
    /// The span's length in nanoseconds.
    type V = nat;

    closed spec fn view(&self) -> nat {
        (self.secs * NANOS_PER_SEC + self.nanos) as nat
    }
}

impl Duration {
    /// A duration of `nanos` nanoseconds.
    pub fn from_nanos(nanos: u64) -> (d: Duration)
        ensures
            d@ == nanos,
    {
        let secs = nanos / NANOS_PER_SEC;
        let rest = nanos % NANOS_PER_SEC;
        assert(secs * NANOS_PER_SEC + rest == nanos) by (nonlinear_arith)
            requires
                secs == nanos / NANOS_PER_SEC,
                rest == nanos % NANOS_PER_SEC,
                NANOS_PER_SEC > 0,
        ;
        Duration { secs, nanos: rest as u32 }
    }

    /// A duration of `millis` milliseconds.
    pub fn from_millis(millis: u64) -> (d: Duration)
        ensures
            d@ == millis * NANOS_PER_MILLI,
    {
        let secs = millis / 1000;
        let rest = millis % 1000;
        assert(secs * NANOS_PER_SEC + rest * NANOS_PER_MILLI == millis * NANOS_PER_MILLI)
            by (nonlinear_arith)
            requires
                secs == millis / 1000,
                rest == millis % 1000,
                NANOS_PER_SEC == 1000 * NANOS_PER_MILLI,
        ;
        Duration { secs, nanos: (rest * 1_000_000) as u32 }
    }

    /// A duration of `secs` seconds and `nanos` nanoseconds; nanoseconds
    /// beyond a second carry into the seconds, which must not overflow.
    pub fn new(secs: u64, nanos: u32) -> (d: Duration)
        requires
            secs + (nanos as u64) / NANOS_PER_SEC <= u64::MAX,
        ensures
            d@ == secs * NANOS_PER_SEC + nanos,
    {
        let wide: u64 = nanos as u64;
        let carry = wide / NANOS_PER_SEC;
        let rest = wide % NANOS_PER_SEC;
        assert(carry * NANOS_PER_SEC + rest == wide) by (nonlinear_arith)
            requires
                carry == wide / NANOS_PER_SEC,
                rest == wide % NANOS_PER_SEC,
                NANOS_PER_SEC > 0,
        ;
        assert((secs + carry) * NANOS_PER_SEC == secs * NANOS_PER_SEC + carry * NANOS_PER_SEC)
            by (nonlinear_arith);
        Duration { secs: secs + carry, nanos: rest as u32 }
    }

    /// The whole seconds in this span.
    pub fn as_secs(&self) -> (secs: u64)
        ensures
            secs == self@ / (NANOS_PER_SEC as nat),
    {
        proof {
            use_type_invariant(self);
            self.lemma_split();
        }
        self.secs
    }

    /// The nanoseconds in this span beyond its whole seconds.
    pub fn subsec_nanos(&self) -> (nanos: u32)
        ensures
            nanos == self@ % (NANOS_PER_SEC as nat),
            nanos < NANOS_PER_SEC,
    {
        proof {
            use_type_invariant(self);
            self.lemma_split();
        }
        self.nanos
    }

    proof fn lemma_split(&self)
        requires
            self.nanos < NANOS_PER_SEC,
        ensures
            self@ / (NANOS_PER_SEC as nat) == self.secs,
            self@ % (NANOS_PER_SEC as nat) == self.nanos,
    {
        let n = self.secs * NANOS_PER_SEC + self.nanos;
        vstd::arithmetic::div_mod::lemma_fundamental_div_mod_converse(
            n,
            NANOS_PER_SEC as int,
            self.secs as int,
            self.nanos as int,
        );
    }
}

} // verus!
