//! A span of time held as whole seconds plus a sub-second part in nanoseconds.

use vstd::prelude::*;

verus! {

/// Nanoseconds in one second.
pub const NANOS_PER_SEC: u32 = 1_000_000_000;

/// Nanoseconds in one millisecond.
pub const NANOS_PER_MILLI: u32 = 1_000_000;

/// Milliseconds in one second.
pub const MILLIS_PER_SEC: u64 = 1_000;

/// A non-negative span of time with nanosecond resolution.
///
/// The sub-second part is always less than one second, so every span has
/// exactly one representation.
#[derive(Clone, Copy, Debug, PartialEq, Eq, Structural)]
pub struct Duration {
    secs: u64,
    nanos: u32,
}

impl View for Duration {
    type V = nat;

    /// The whole span in nanoseconds.
    open spec fn view(&self) -> nat {
        self.spec_secs() * (NANOS_PER_SEC as nat) + self.spec_subsec_nanos()
    }
}

impl Duration {
    #[verifier::type_invariant]
    closed spec fn normalized(self) -> bool {
        self.nanos < NANOS_PER_SEC
    }

    /// The span that holds `secs` seconds and `nanos` nanoseconds below the
    /// second.
    pub closed spec fn spec_from_parts(secs: u64, nanos: u32) -> Duration {
        Duration { secs, nanos }
    }

    /// The whole seconds of the span.
    pub closed spec fn spec_secs(self) -> nat {
        self.secs as nat
    }

    /// The part of the span below one second, in nanoseconds.
    pub closed spec fn spec_subsec_nanos(self) -> nat {
        self.nanos as nat
    }

    /// The span in whole milliseconds, rounded down.
    pub open spec fn spec_millis(self) -> nat {
        self@ / (NANOS_PER_MILLI as nat)
    }

    /// A span of `secs` seconds plus `nanos` nanoseconds. Nanoseconds beyond
    /// one second carry over into the seconds; `None` when the seconds then
    /// no longer fit.
    pub fn new(secs: u64, nanos: u32) -> (made: Option<Duration>)
        ensures
            made is Some <==> secs + nanos / NANOS_PER_SEC <= u64::MAX,
            made matches Some(d) ==> d.spec_secs() == secs + nanos / NANOS_PER_SEC
                && d.spec_subsec_nanos() == nanos % NANOS_PER_SEC && d@ == secs * NANOS_PER_SEC
                + nanos,
            made matches Some(d) ==> nanos < NANOS_PER_SEC ==> d == Duration::spec_from_parts(
                secs,
                nanos,
            ),
    {
        let carry: u64 = (nanos / NANOS_PER_SEC) as u64;
        let rest: u32 = nanos % NANOS_PER_SEC;
        match secs.checked_add(carry) {
            Some(total) => {
                assert(total * NANOS_PER_SEC + rest == secs * NANOS_PER_SEC + nanos) by (nonlinear_arith)
                    requires
                        total == secs + nanos / NANOS_PER_SEC,
                        rest == nanos % NANOS_PER_SEC,
                ;
                Some(Duration { secs: total, nanos: rest })
            },
            None => None,
        }
    }

    /// A span of `secs` whole seconds.
    pub fn from_secs(secs: u64) -> (d: Duration)
        ensures
            d == Duration::spec_from_parts(secs, 0),
            d.spec_secs() == secs,
            d.spec_subsec_nanos() == 0,
            d@ == secs * NANOS_PER_SEC,
    {
        Duration { secs, nanos: 0 }
    }

    /// A span of `millis` milliseconds.
    pub fn from_millis(millis: u64) -> (d: Duration)
        ensures
            d.spec_secs() == millis / MILLIS_PER_SEC,
            d.spec_subsec_nanos() == (millis % MILLIS_PER_SEC) * NANOS_PER_MILLI,
            d@ == millis * NANOS_PER_MILLI,
            d.spec_millis() == millis,
    {
        let secs: u64 = millis / MILLIS_PER_SEC;
        let nanos: u32 = ((millis % MILLIS_PER_SEC) as u32) * NANOS_PER_MILLI;
        assert(secs * NANOS_PER_SEC + nanos == millis * NANOS_PER_MILLI) by (nonlinear_arith)
            requires
                secs == millis / 1000,
                nanos == (millis % 1000) * 1_000_000,
        ;
        let d = Duration { secs, nanos };
        assert(d.spec_millis() == millis) by (nonlinear_arith)
            requires
                d@ == millis * 1_000_000,
                d.spec_millis() == d@ / 1_000_000,
        ;
        d
    }

    /// The whole seconds of the span.
    pub fn as_secs(&self) -> (secs: u64)
        ensures
            secs == self.spec_secs(),
    {
        self.secs
    }

    /// The part of the span below one second, in nanoseconds.
    pub fn subsec_nanos(&self) -> (nanos: u32)
        ensures
            nanos == self.spec_subsec_nanos(),
            nanos < NANOS_PER_SEC,
    {
        proof {
            use_type_invariant(self);
        }
        self.nanos
    }

    /// The span in whole milliseconds, rounded down.
    pub fn as_millis(&self) -> (millis: u128)
        ensures
            millis == self.spec_millis(),
    {
        proof {
            use_type_invariant(self);
        }
        let whole: u128 = (self.secs as u128) * (MILLIS_PER_SEC as u128);
        let part: u128 = (self.nanos / NANOS_PER_MILLI) as u128;
        assert(whole + part == self@ / 1_000_000) by (nonlinear_arith)
            requires
                whole == self.secs * 1000,
                part == self.nanos / 1_000_000,
                self@ == self.secs * 1_000_000_000 + self.nanos,
                self.nanos < 1_000_000_000,
        ;
        whole + part
    }
}

/// The span made from two parts has those parts.
pub proof fn lemma_duration_parts(secs: u64, nanos: u32)
    ensures
        Duration::spec_from_parts(secs, nanos).spec_secs() == secs,
        Duration::spec_from_parts(secs, nanos).spec_subsec_nanos() == nanos,
        Duration::spec_from_parts(secs, nanos)@ == secs * NANOS_PER_SEC + nanos,
{
}

/// A span is its two parts: two spans with the same parts are the same.
pub proof fn lemma_duration_by_parts(a: Duration, b: Duration)
    requires
        a.spec_secs() == b.spec_secs(),
        a.spec_subsec_nanos() == b.spec_subsec_nanos(),
    ensures
        a == b,
{
}

} // verus!
