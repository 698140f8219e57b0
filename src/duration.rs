use vstd::prelude::*;

verus! {

pub const NANOS_PER_SEC: u32 = 1_000_000_000;

pub const NANOS_PER_MILLI: u32 = 1_000_000;

pub const MILLIS_PER_SEC: u64 = 1_000;

/// A span of time, held as whole seconds plus the nanoseconds below one
/// second, so that every `u64` count of seconds or of milliseconds fits.
#[derive(Clone, Copy, Debug, PartialEq, Eq, Hash)]
pub struct Duration {
    secs: u64,
    nanos: u32,
}

impl Duration {
    /// The sub-second part is always below one second.
    pub closed spec fn wf(self) -> bool {
        self.nanos < NANOS_PER_SEC
    }

    /// Whole seconds of the span.
    pub closed spec fn spec_secs(self) -> u64 {
        self.secs
    }

    /// The nanoseconds of the span below one whole second.
    pub closed spec fn spec_subsec_nanos(self) -> u32 {
        self.nanos
    }

    /// The length of the span in nanoseconds.
    pub closed spec fn total_nanos(self) -> int {
        self.secs * (NANOS_PER_SEC as int) + self.nanos
    }

    /// The length of the span in whole milliseconds.
    pub closed spec fn total_millis(self) -> int {
        self.total_nanos() / (NANOS_PER_MILLI as int)
    }

    /// The span of `secs` seconds.
    pub closed spec fn spec_from_secs(secs: u64) -> Duration {
        Duration { secs, nanos: 0 }
    }

    /// The span of `millis` milliseconds.
    pub closed spec fn spec_from_millis(millis: u64) -> Duration {
        Duration {
            secs: millis / MILLIS_PER_SEC,
            nanos: ((millis % MILLIS_PER_SEC) * (NANOS_PER_MILLI as u64)) as u32,
        }
    }

    /// A span of `secs` seconds.
    pub fn from_secs(secs: u64) -> (r: Duration)
        ensures
            r == Duration::spec_from_secs(secs),
            r.wf(),
            r.total_nanos() == secs * 1_000_000_000,
            r.total_millis() == secs * 1000,
    {
        let r = Duration { secs, nanos: 0 };
        assert(r.total_millis() == secs * 1000) by (nonlinear_arith)
            requires
                r.total_nanos() == secs * 1_000_000_000,
        ;
        r
    }

    /// A span of `millis` milliseconds.
    pub fn from_millis(millis: u64) -> (r: Duration)
        ensures
            r == Duration::spec_from_millis(millis),
            r.wf(),
            r.total_nanos() == millis * 1_000_000,
            r.total_millis() == millis,
    {
        let secs = millis / MILLIS_PER_SEC;
        let rest = millis % MILLIS_PER_SEC;
        let nanos = (rest as u32) * NANOS_PER_MILLI;
        let r = Duration { secs, nanos };
        assert(r.total_nanos() == millis * 1_000_000) by (nonlinear_arith)
            requires
                secs == millis / 1000,
                rest == millis % 1000,
                nanos == rest * 1_000_000,
                r.total_nanos() == secs * 1_000_000_000 + nanos,
        ;
        assert(r.total_millis() == millis) by (nonlinear_arith)
            requires
                r.total_nanos() == millis * 1_000_000,
                r.total_millis() == r.total_nanos() / 1_000_000,
        ;
        r
    }

    /// Whole seconds of the span.
    pub fn as_secs(&self) -> (r: u64)
        ensures
            r == self.spec_secs(),
            self.total_nanos() == r * 1_000_000_000 + self.spec_subsec_nanos(),
    {
        self.secs
    }

    /// The nanoseconds of the span below one whole second.
    pub fn subsec_nanos(&self) -> (r: u32)
        ensures
            r == self.spec_subsec_nanos(),
            self.wf() ==> r < 1_000_000_000,
    {
        self.nanos
    }

    /// Whether this span is at least as long as `other`.
    pub fn at_least(&self, other: &Duration) -> (r: bool)
        ensures
            r == (self.total_nanos() >= other.total_nanos()),
    {
        assert((self.secs as u128) * 1_000_000_000 <= 0xffff_ffff_ffff_ffffu128 * 1_000_000_000) by (nonlinear_arith);
        assert((other.secs as u128) * 1_000_000_000 <= 0xffff_ffff_ffff_ffffu128 * 1_000_000_000) by (nonlinear_arith);
        let mine = (self.secs as u128) * (NANOS_PER_SEC as u128) + (self.nanos as u128);
        let theirs = (other.secs as u128) * (NANOS_PER_SEC as u128) + (other.nanos as u128);
        assert(mine == self.total_nanos() && theirs == other.total_nanos());
        mine >= theirs
    }

    /// The length of the span in whole milliseconds.
    pub fn as_millis(&self) -> (r: u128)
        requires
            self.wf(),
        ensures
            r == self.total_millis(),
    {
        let r = (self.secs as u128) * (MILLIS_PER_SEC as u128) + ((self.nanos / NANOS_PER_MILLI) as u128);
        assert(r == self.total_millis()) by (nonlinear_arith)
            requires
                self.nanos < 1_000_000_000,
                r == self.secs * 1000 + self.nanos / 1_000_000,
                self.total_millis() == (self.secs * 1_000_000_000 + self.nanos) / 1_000_000,
        ;
        r
    }
}

/// Two well-formed spans of the same length are the same span.
pub proof fn lemma_same_length_same_span(a: Duration, b: Duration)
    requires
        a.wf(),
        b.wf(),
        a.total_nanos() == b.total_nanos(),
    ensures
        a == b,
{
    let (sa, na, sb, nb) = (a.secs as int, a.nanos as int, b.secs as int, b.nanos as int);
    assert(sa == sb && na == nb) by (nonlinear_arith)
        requires
            sa * 1_000_000_000 + na == sb * 1_000_000_000 + nb,
            0 <= na < 1_000_000_000,
            0 <= nb < 1_000_000_000,
    ;
}

/// The span built from a count of milliseconds is well formed and has that length.
pub proof fn lemma_from_millis_length(millis: u64)
    ensures
        Duration::spec_from_millis(millis).wf(),
        Duration::spec_from_millis(millis).total_nanos() == millis * 1_000_000,
{
    let d = Duration::spec_from_millis(millis);
    let rest = millis % 1000;
    assert(rest * 1_000_000 < 1_000_000_000) by (nonlinear_arith)
        requires
            rest < 1000,
    ;
    assert(d.total_nanos() == millis * 1_000_000) by (nonlinear_arith)
        requires
            d.secs == millis / 1000,
            d.nanos == rest * 1_000_000,
            rest == millis % 1000,
            d.total_nanos() == d.secs * 1_000_000_000 + d.nanos,
    ;
}

/// `n` seconds and `1000 * n` milliseconds are the same span.
pub proof fn lemma_seconds_are_thousand_millis(n: u64)
    requires
        n * 1000 <= u64::MAX,
    ensures
        Duration::spec_from_secs(n) == Duration::spec_from_millis((n * 1000) as u64),
{
    lemma_from_millis_length((n * 1000) as u64);
    assert(Duration::spec_from_secs(n).total_nanos() == n * 1_000_000_000);
    lemma_same_length_same_span(Duration::spec_from_secs(n), Duration::spec_from_millis((n * 1000) as u64));
}

} // verus!
