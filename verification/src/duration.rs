//! Spans of time with nanosecond resolution.

use std::cmp::Ordering;

use vstd::prelude::*;

verus! {

/// Nanoseconds in a second.
pub const NANOS_PER_SEC: u32 = 1_000_000_000;

/// Nanoseconds in a millisecond.
pub const NANOS_PER_MILLI: u32 = 1_000_000;

/// A span of time: whole seconds and a fraction below one second.
#[derive(Debug, Clone, Copy, Eq)]
pub struct Duration {
    secs: u64,
    nanos: u32,
}

impl View for Duration {
    type V = nat;

    /// The span in nanoseconds.
    closed spec fn view(&self) -> nat {
        (self.secs * NANOS_PER_SEC + self.nanos) as nat
    }
}

impl Duration {
    #[verifier::type_invariant]
    spec fn fraction_below_one_second(self) -> bool {
        self.nanos < NANOS_PER_SEC
    }

    /// A span of `secs` seconds and `nanos` nanoseconds.
    pub fn new(secs: u64, nanos: u32) -> (span: Duration)
        requires
            nanos < NANOS_PER_SEC,
        ensures
            span@ == secs * NANOS_PER_SEC + nanos,
            span@ == secs * 1_000_000_000 + nanos,
    {
        Duration { secs, nanos }
    }

    /// No time at all.
    pub fn zero() -> (span: Duration)
        ensures
            span@ == 0,
    {
        Duration { secs: 0, nanos: 0 }
    }

    /// A span of whole seconds.
    pub fn from_secs(secs: u64) -> (span: Duration)
        ensures
            span@ == secs * NANOS_PER_SEC,
            span@ == secs * 1_000_000_000,
    {
        Duration { secs, nanos: 0 }
    }

    /// A span of whole milliseconds.
    pub fn from_millis(millis: u64) -> (span: Duration)
        ensures
            span@ == millis * NANOS_PER_MILLI,
            span@ == millis * 1_000_000,
    {
        let rest: u64 = millis % 1000;
        Duration { secs: millis / 1000, nanos: (rest as u32) * NANOS_PER_MILLI }
    }

    /// The whole seconds of the span.
    pub fn as_secs(&self) -> (secs: u64)
        ensures
            secs == self@ / (NANOS_PER_SEC as nat),
            secs == self@ / 1_000_000_000,
    {
        proof {
            use_type_invariant(self);
        }
        self.secs
    }

    /// The part of the span below one second, in nanoseconds.
    pub fn subsec_nanos(&self) -> (nanos: u32)
        ensures
            nanos == self@ % (NANOS_PER_SEC as nat),
            nanos == self@ % 1_000_000_000,
    {
        proof {
            use_type_invariant(self);
        }
        self.nanos
    }

    /// Whether the span is empty.
    pub fn is_zero(&self) -> (zero: bool)
        ensures
            zero == (self@ == 0),
    {
        self.secs == 0 && self.nanos == 0
    }

    /// `self` without `other`, or nothing where `other` is longer.
    pub fn saturating_sub(self, other: Duration) -> (span: Duration)
        ensures
            span@ == if self@ >= other@ {
                (self@ - other@) as nat
            } else {
                0
            },
    {
        proof {
            use_type_invariant(&self);
            use_type_invariant(&other);
        }
        if self.secs < other.secs || (self.secs == other.secs && self.nanos < other.nanos) {
            Duration { secs: 0, nanos: 0 }
        } else if self.nanos >= other.nanos {
            Duration { secs: self.secs - other.secs, nanos: self.nanos - other.nanos }
        } else {
            Duration {
                secs: self.secs - other.secs - 1,
                nanos: NANOS_PER_SEC - other.nanos + self.nanos,
            }
        }
    }

    /// Half the span, rounded down.
    pub fn half(self) -> (span: Duration)
        ensures
            span@ == self@ / 2,
    {
        proof {
            use_type_invariant(&self);
        }
        let carry: u32 = (self.secs % 2) as u32;
        Duration { secs: self.secs / 2, nanos: (carry * NANOS_PER_SEC + self.nanos) / 2 }
    }

    /// A quarter of the span, rounded down.
    pub fn quarter(self) -> (span: Duration)
        ensures
            span@ == self@ / 4,
    {
        proof {
            use_type_invariant(&self);
        }
        let carry: u64 = self.secs % 4;
        let nanos: u64 = carry * 1_000_000_000 + self.nanos as u64;
        Duration { secs: self.secs / 4, nanos: (nanos / 4) as u32 }
    }
}

impl vstd::std_specs::cmp::PartialEqSpecImpl for Duration {
    open spec fn obeys_eq_spec() -> bool {
        true
    }

    open spec fn eq_spec(&self, other: &Duration) -> bool {
        self@ == other@
    }
}

impl PartialEq for Duration {
    fn eq(&self, other: &Duration) -> (equal: bool) {
        proof {
            use_type_invariant(self);
            use_type_invariant(other);
        }
        self.secs == other.secs && self.nanos == other.nanos
    }
}

impl vstd::std_specs::cmp::PartialOrdSpecImpl for Duration {
    open spec fn obeys_partial_cmp_spec() -> bool {
        true
    }

    open spec fn partial_cmp_spec(&self, other: &Duration) -> Option<Ordering> {
        if self@ < other@ {
            Some(Ordering::Less)
        } else if self@ == other@ {
            Some(Ordering::Equal)
        } else {
            Some(Ordering::Greater)
        }
    }
}

impl PartialOrd for Duration {
    fn partial_cmp(&self, other: &Duration) -> (order: Option<Ordering>) {
        proof {
            use_type_invariant(self);
            use_type_invariant(other);
        }
        if self.secs < other.secs {
            Some(Ordering::Less)
        } else if self.secs > other.secs {
            Some(Ordering::Greater)
        } else if self.nanos < other.nanos {
            Some(Ordering::Less)
        } else if self.nanos > other.nanos {
            Some(Ordering::Greater)
        } else {
            Some(Ordering::Equal)
        }
    }
}

/// What `Debug` prints of a standard `Duration` of that many nanoseconds.
pub uninterp spec fn duration_debug(nanos: nat) -> Seq<char>;

/// Formats the span as the `Debug` implementation of `std::time::Duration` does.
///
/// The contract claims only that the text is a function of the length of the span;
/// how the text looks is left to the standard library.
#[verifier::external_body]
pub(crate) fn format_duration(span: &Duration) -> (text: String)
    ensures
        text@ == duration_debug(span@),
{
    format!("{:?}", std::time::Duration::new(span.secs, span.nanos))
}

/// Spans are equal where they last equally long, and ordered by how long they last.
pub proof fn spans_are_ordered_by_length(one: Duration, other: Duration)
    ensures
        vstd::std_specs::cmp::PartialEqSpec::eq_spec(&one, &other) <==> one@ == other@,
        one@ < other@ <==> vstd::std_specs::cmp::PartialOrdSpec::partial_cmp_spec(&one, &other)
            == Some(Ordering::Less),
        one@ == other@ <==> vstd::std_specs::cmp::PartialOrdSpec::partial_cmp_spec(&one, &other)
            == Some(Ordering::Equal),
        one@ > other@ <==> vstd::std_specs::cmp::PartialOrdSpec::partial_cmp_spec(&one, &other)
            == Some(Ordering::Greater),
{
}

} // verus!
