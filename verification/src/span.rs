//! Non-negative time spans with nanosecond resolution.

use vstd::prelude::*;

verus! {

/// Nanoseconds in one second.
pub const NANOS_PER_SEC: u32 = 1_000_000_000;

/// Nanoseconds in one millisecond.
pub const NANOS_PER_MILLI: u32 = 1_000_000;

/// Milliseconds in one second.
pub const MILLIS_PER_SEC: u64 = 1_000;

/// A span of time: whole seconds and a sub-second part in nanoseconds.
///
/// Every value is in canonical form (the sub-second part is below one
/// second), so two spans are equal exactly when they last equally long.
#[derive(Clone, Copy, Debug, PartialEq, Eq, Structural)]
pub struct Span {
    secs: u64,
    nanos: u32,
}

impl View for Span {
    type V = nat;

    /// The length of the span in nanoseconds.
    closed spec fn view(&self) -> nat {
        (self.secs * NANOS_PER_SEC + self.nanos) as nat
    }
}

impl Span {
    /// Canonical form: the sub-second part is less than one second.
    #[verifier::type_invariant]
    pub closed spec fn wf(self) -> bool {
        self.nanos < NANOS_PER_SEC
    }

    /// The longest span that can be represented, in nanoseconds.
    pub open spec fn max_nanos() -> nat {
        (u64::MAX * NANOS_PER_SEC + (NANOS_PER_SEC - 1)) as nat
    }

    /// A canonical span is determined by its length.
    pub proof fn lemma_length_determines_span(a: Span, b: Span)
        requires
            a.wf(),
            b.wf(),
            a@ == b@,
        ensures
            a == b,
    {
    }

    /// A canonical span is never longer than `max_nanos()`.
    pub proof fn lemma_length_is_bounded(s: Span)
        requires
            s.wf(),
        ensures
            s@ <= Span::max_nanos(),
    {
    }

    /// The span of `secs` seconds and `nanos` nanoseconds. Nanoseconds
    /// beyond one second carry over into the seconds; the result is `None`
    /// exactly when the sum is longer than any span can be.
    pub fn new(secs: u64, nanos: u32) -> (r: Option<Span>)
        ensures
            r is Some <==> secs * NANOS_PER_SEC + nanos <= Span::max_nanos(),
            r matches Some(s) ==> s@ == secs * NANOS_PER_SEC + nanos,
    {
        let carry: u32 = nanos / NANOS_PER_SEC;
        match secs.checked_add(carry as u64) {
            Some(total) => Some(Span { secs: total, nanos: nanos % NANOS_PER_SEC }),
            None => None,
        }
    }

    /// The span of no time at all.
    pub fn zero() -> (r: Span)
        ensures
            r@ == 0,
    {
        Span { secs: 0, nanos: 0 }
    }

    /// The span of `secs` whole seconds.
    pub fn from_secs(secs: u64) -> (r: Span)
        ensures
            r@ == secs * NANOS_PER_SEC,
    {
        Span { secs, nanos: 0 }
    }

    /// The span of `millis` milliseconds.
    pub fn from_millis(millis: u64) -> (r: Span)
        ensures
            r@ == millis * NANOS_PER_MILLI,
    {
        let sub: u32 = (millis % MILLIS_PER_SEC) as u32;
        Span { secs: millis / MILLIS_PER_SEC, nanos: sub * NANOS_PER_MILLI }
    }

    /// The whole seconds of the span.
    pub fn secs(&self) -> (r: u64)
        ensures
            r == self@ / (NANOS_PER_SEC as nat),
    {
        proof {
            use_type_invariant(self);
        }
        self.secs
    }

    /// The part of the span below one second, in nanoseconds.
    pub fn subsec_nanos(&self) -> (r: u32)
        ensures
            r == self@ % (NANOS_PER_SEC as nat),
            r < NANOS_PER_SEC,
    {
        proof {
            use_type_invariant(self);
        }
        self.nanos
    }

    /// The length of the span in nanoseconds.
    pub fn as_nanos(&self) -> (r: u128)
        ensures
            r == self@,
    {
        proof {
            use_type_invariant(self);
        }
        let secs: u128 = self.secs as u128;
        let per_sec: u128 = NANOS_PER_SEC as u128;
        assert(secs * per_sec <= u64::MAX * per_sec) by (nonlinear_arith)
            requires
                secs <= u64::MAX,
        ;
        secs * per_sec + (self.nanos as u128)
    }

    /// The difference `self - rhs`, clamped to zero when `rhs` is the longer
    /// span.
    pub fn saturating_sub(self, rhs: Span) -> (r: Span)
        ensures
            r@ == if self@ >= rhs@ {
                self@ - rhs@
            } else {
                0
            },
    {
        match self.checked_sub(rhs) {
            Some(d) => d,
            None => Span::zero(),
        }
    }

    /// The difference `self - rhs`, or `None` when `rhs` is the longer span.
    pub fn checked_sub(self, rhs: Span) -> (r: Option<Span>)
        ensures
            match r {
                Some(d) => self@ >= rhs@ && d@ == self@ - rhs@,
                None => self@ < rhs@,
            },
    {
        proof {
            use_type_invariant(&self);
            use_type_invariant(&rhs);
        }
        if self.secs < rhs.secs {
            None
        } else if self.nanos >= rhs.nanos {
            Some(Span { secs: self.secs - rhs.secs, nanos: self.nanos - rhs.nanos })
        } else if self.secs > rhs.secs {
            Some(
                Span {
                    secs: self.secs - rhs.secs - 1,
                    nanos: self.nanos + NANOS_PER_SEC - rhs.nanos,
                },
            )
        } else {
            None
        }
    }
}

} // verus!
