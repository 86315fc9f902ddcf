//! Lengths of time with millisecond resolution.

use vstd::prelude::*;

verus! {

/// A length of time: whole seconds and the milliseconds beyond them.
///
/// Its view is the length in milliseconds.
#[derive(Clone, Copy, Debug, PartialEq, Eq)]
pub struct TimeSpan {
    secs: u64,
    millis: u16,
}

impl View for TimeSpan {
    type V = nat;

    closed spec fn view(&self) -> nat {
        (self.secs as nat) * 1000 + (self.millis as nat)
    }
}

impl TimeSpan {
    #[verifier::type_invariant]
    spec fn within_second(self) -> bool {
        self.millis < 1000
    }

    /// The span of `secs` seconds.
    pub fn from_secs(secs: u64) -> (span: TimeSpan)
        ensures
            span@ == secs as nat * 1000,
    {
        TimeSpan { secs, millis: 0 }
    }

    /// The span of `millis` milliseconds.
    pub fn from_millis(millis: u64) -> (span: TimeSpan)
        ensures
            span@ == millis as nat,
    {
        TimeSpan { secs: millis / 1000, millis: (millis % 1000) as u16 }
    }

    /// The length in milliseconds.
    pub fn as_millis(&self) -> (millis: u128)
        ensures
            millis as nat == self@,
    {
        proof {
            use_type_invariant(self);
        }
        (self.secs as u128) * 1000 + (self.millis as u128)
    }

    /// The whole seconds of the span.
    pub fn as_secs(&self) -> (secs: u64)
        ensures
            secs as nat == self@ / 1000,
    {
        proof {
            use_type_invariant(self);
        }
        self.secs
    }

    /// The milliseconds beyond the whole seconds, always below 1000.
    pub fn subsec_millis(&self) -> (millis: u32)
        ensures
            millis as nat == self@ % 1000,
    {
        proof {
            use_type_invariant(self);
        }
        self.millis as u32
    }

    /// Whether the span is empty.
    pub fn is_zero(&self) -> (zero: bool)
        ensures
            zero == (self@ == 0),
    {
        self.secs == 0 && self.millis == 0
    }

    /// Whether this span and `other` have one length.
    pub fn same_length(&self, other: &TimeSpan) -> (same: bool)
        ensures
            same == (self@ == other@),
    {
        proof {
            use_type_invariant(self);
            use_type_invariant(other);
        }
        self.secs == other.secs && self.millis == other.millis
    }

    /// Whether this span is no longer than `other`.
    pub fn no_longer_than(&self, other: &TimeSpan) -> (within: bool)
        ensures
            within == (self@ <= other@),
    {
        proof {
            use_type_invariant(self);
            use_type_invariant(other);
        }
        self.secs < other.secs || (self.secs == other.secs && self.millis <= other.millis)
    }
}

} // verus!
