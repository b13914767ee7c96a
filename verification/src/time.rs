//! A span of time as plain numbers: whole seconds plus a sub-second part
//! in nanoseconds, viewed as a total number of nanoseconds.

use vstd::prelude::*;

verus! {

/// Nanoseconds in one second.
pub const NANOS_PER_SEC: u32 = 1_000_000_000;

/// A non-negative span of time with nanosecond precision, as used for the
/// polling interval, the wait limit and elapsed time.
#[derive(Clone, Copy, Debug, PartialEq, Eq, Structural)]
pub struct TimeSpan {
    secs: u64,
    nanos: u32,
}

/// The largest number of nanoseconds a `TimeSpan` can hold.
pub open spec fn max_span_nanos() -> nat {
    u64::MAX as nat * NANOS_PER_SEC as nat + (NANOS_PER_SEC - 1) as nat
}

/// The text `format!("{:?}", d)` gives for the std `Duration` `d` of
/// `secs` seconds and `nanos` nanoseconds (such as `20s` or `1.5ms`).
pub uninterp spec fn duration_debug(secs: u64, nanos: u32) -> Seq<char>;

/// std's `Debug` rendering of the `Duration` of `secs` seconds and `nanos`
/// nanoseconds.
#[verifier::external_body]
fn duration_debug_text(secs: u64, nanos: u32) -> (r: String)
    requires
        nanos < NANOS_PER_SEC,
    ensures
        r@ == duration_debug(secs, nanos),
{
    format!("{:?}", std::time::Duration::new(secs, nanos))
}

impl View for TimeSpan {
    type V = nat;

    closed spec fn view(&self) -> nat {
        self.secs as nat * NANOS_PER_SEC as nat + self.nanos as nat
    }
}

impl TimeSpan {
    #[verifier::type_invariant]
    spec fn sub_second_in_range(self) -> bool {
        self.nanos < NANOS_PER_SEC
    }

    /// Whole seconds of this span, as a spec value.
    pub closed spec fn spec_secs(self) -> u64 {
        self.secs
    }

    /// Sub-second nanoseconds of this span, as a spec value.
    pub closed spec fn spec_subsec_nanos(self) -> u32 {
        self.nanos
    }

    /// The view splits into whole seconds and the sub-second remainder.
    pub proof fn lemma_parts(self)
        requires
            self.spec_subsec_nanos() < NANOS_PER_SEC,
        ensures
            self@ == self.spec_secs() as nat * NANOS_PER_SEC as nat + self.spec_subsec_nanos() as nat,
            self@ / (NANOS_PER_SEC as nat) == self.spec_secs() as nat,
            self@ % (NANOS_PER_SEC as nat) == self.spec_subsec_nanos() as nat,
            self@ <= max_span_nanos(),
    {
        let s = self.secs as nat;
        let n = self.nanos as nat;
        assert((s * 1_000_000_000 + n) / 1_000_000_000 == s && (s * 1_000_000_000 + n) % 1_000_000_000
            == n) by (nonlinear_arith)
            requires
                n < 1_000_000_000,
        ;
        assert(s * 1_000_000_000 <= u64::MAX as nat * 1_000_000_000) by (nonlinear_arith)
            requires
                s <= u64::MAX as nat,
        ;
    }

    /// Builds a span from whole seconds and a sub-second part.
    pub fn new(secs: u64, nanos: u32) -> (r: TimeSpan)
        requires
            nanos < NANOS_PER_SEC,
        ensures
            r@ == secs as nat * NANOS_PER_SEC as nat + nanos as nat,
            r.spec_secs() == secs,
            r.spec_subsec_nanos() == nanos,
    {
        TimeSpan { secs, nanos }
    }

    /// A span of whole seconds.
    pub fn from_secs(secs: u64) -> (r: TimeSpan)
        ensures
            r@ == secs as nat * NANOS_PER_SEC as nat,
            r.spec_secs() == secs,
            r.spec_subsec_nanos() == 0,
    {
        TimeSpan { secs, nanos: 0 }
    }

    /// A span of whole milliseconds.
    pub fn from_millis(millis: u64) -> (r: TimeSpan)
        ensures
            r@ == millis as nat * 1_000_000,
    {
        let secs = millis / 1000;
        let rem = millis % 1000;
        let nanos = (rem as u32) * 1_000_000;
        proof {
            assert(millis as nat * 1_000_000 == secs as nat * 1_000_000_000 + rem as nat * 1_000_000)
                by (nonlinear_arith)
                requires
                    secs == millis / 1000,
                    rem == millis % 1000,
            ;
        }
        TimeSpan { secs, nanos }
    }

    /// Whole seconds of this span.
    pub fn as_secs(&self) -> (r: u64)
        ensures
            r == self.spec_secs(),
            r as nat == self@ / (NANOS_PER_SEC as nat),
    {
        proof {
            use_type_invariant(self);
            self.lemma_parts();
        }
        self.secs
    }

    /// The sub-second part of this span, in nanoseconds.
    pub fn subsec_nanos(&self) -> (r: u32)
        ensures
            r == self.spec_subsec_nanos(),
            r as nat == self@ % (NANOS_PER_SEC as nat),
            r < NANOS_PER_SEC,
    {
        proof {
            use_type_invariant(self);
            self.lemma_parts();
        }
        self.nanos
    }

    /// Whether the span is empty.
    pub fn is_zero(&self) -> (r: bool)
        ensures
            r == (self@ == 0),
    {
        self.secs == 0 && self.nanos == 0
    }

    /// Whether this span is no longer than `other`.
    pub fn le(&self, other: &TimeSpan) -> (r: bool)
        ensures
            r == (self@ <= other@),
    {
        proof {
            use_type_invariant(self);
            use_type_invariant(other);
            self.lemma_parts();
            other.lemma_parts();
        }
        self.secs < other.secs || (self.secs == other.secs && self.nanos <= other.nanos)
    }

    /// `self - other`, or `None` when `other` is longer than `self`.
    pub fn checked_sub(&self, other: &TimeSpan) -> (r: Option<TimeSpan>)
        ensures
            r is Some <==> other@ <= self@,
            r matches Some(d) ==> d@ == self@ - other@,
    {
        proof {
            use_type_invariant(self);
            use_type_invariant(other);
            self.lemma_parts();
            other.lemma_parts();
        }
        if !other.le(self) {
            None
        } else if self.nanos >= other.nanos {
            Some(TimeSpan { secs: self.secs - other.secs, nanos: self.nanos - other.nanos })
        } else {
            Some(
                TimeSpan {
                    secs: self.secs - other.secs - 1,
                    nanos: NANOS_PER_SEC - other.nanos + self.nanos,
                },
            )
        }
    }

    /// The text of this span as std's `Duration` renders it with `{:?}`.
    pub fn debug_text(&self) -> (r: String)
        ensures
            r@ == duration_debug(self.spec_secs(), self.spec_subsec_nanos()),
    {
        proof {
            use_type_invariant(self);
        }
        duration_debug_text(self.secs, self.nanos)
    }

    /// The shorter of the two spans.
    pub fn min(self, other: TimeSpan) -> (r: TimeSpan)
        ensures
            r@ == if self@ <= other@ {
                self@
            } else {
                other@
            },
            r == self || r == other,
    {
        if self.le(&other) {
            self
        } else {
            other
        }
    }
}

} // verus!
