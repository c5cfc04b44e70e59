//! Spans of time, as plain integers.

use vstd::prelude::*;

verus! {

/// Nanoseconds in a second.
pub const NANOS_PER_SEC: u32 = 1_000_000_000;

/// A span of time: whole seconds, and a remainder of less than a second in
/// nanoseconds. Its view is the whole span in nanoseconds.
#[derive(Clone, Copy, Debug, PartialEq, Eq, Structural)]
pub struct Delay {
    secs: u64,
    nanos: u32,
}

impl View for Delay {
    type V = nat;

    open spec fn view(&self) -> nat {
        (self.parts().0 * NANOS_PER_SEC + self.parts().1) as nat
    }
}

impl Delay {
    #[verifier::type_invariant]
    spec fn has_normal_remainder(self) -> bool {
        self.nanos < NANOS_PER_SEC
    }

    /// The whole seconds, and the remainder in nanoseconds.
    pub closed spec fn parts(self) -> (u64, u32) {
        (self.secs, self.nanos)
    }

    /// The span of `secs` seconds and `nanos` nanoseconds.
    pub fn new(secs: u64, nanos: u32) -> (delay: Delay)
        requires
            nanos < NANOS_PER_SEC,
        ensures
            delay@ == secs * NANOS_PER_SEC + nanos,
            delay.parts() == (secs, nanos),
    {
        Delay { secs, nanos }
    }

    /// The span of `secs` seconds.
    pub fn from_secs(secs: u64) -> (delay: Delay)
        ensures
            delay@ == secs * NANOS_PER_SEC,
            delay.parts() == (secs, 0u32),
    {
        Delay { secs, nanos: 0 }
    }

    /// The span of `millis` milliseconds.
    pub fn from_millis(millis: u64) -> (delay: Delay)
        ensures
            delay@ == millis * 1_000_000,
            delay.parts().0 == millis / 1000,
            delay.parts().1 == (millis % 1000) * 1_000_000,
    {
        Delay { secs: millis / 1000, nanos: ((millis % 1000) as u32) * 1_000_000 }
    }

    /// Whether the span is empty.
    pub fn is_zero(&self) -> (zero: bool)
        ensures
            zero == (self@ == 0),
    {
        self.secs == 0 && self.nanos == 0
    }

    /// The whole seconds of the span.
    pub fn as_secs(&self) -> (secs: u64)
        ensures
            secs == self@ / (NANOS_PER_SEC as nat),
            secs == self.parts().0,
    {
        proof {
            use_type_invariant(self);
        }
        self.secs
    }

    /// What is left of the span beyond its whole seconds, in nanoseconds.
    pub fn subsec_nanos(&self) -> (nanos: u32)
        ensures
            nanos == self@ % (NANOS_PER_SEC as nat),
            nanos == self.parts().1,
            nanos < NANOS_PER_SEC,
    {
        proof {
            use_type_invariant(self);
        }
        self.nanos
    }
}

/// A span is one value only: delays of the same parts are equal, and so are
/// delays of the same length, the remainder being less than a second.
pub proof fn law_equal_spans_are_equal(a: Delay, b: Delay)
    ensures
        a.parts() == b.parts() ==> a == b,
        a@ == b@ && a.parts().1 < NANOS_PER_SEC && b.parts().1 < NANOS_PER_SEC ==> a == b,
{
}

} // verus!
