//! Lengths of time and clock readings, in whole nanoseconds.

use vstd::prelude::*;

verus! {

/// Nanoseconds in a microsecond.
pub const NANOS_PER_MICRO: u64 = 1_000;

/// Nanoseconds in a millisecond.
pub const NANOS_PER_MILLI: u64 = 1_000_000;

/// The largest count of nanoseconds that a [`Span`] or a [`Moment`] holds.
pub const MAX_NANOS: u64 = 0xffff_ffff_ffff_ffff;

/// `n`, or [`MAX_NANOS`] where `n` lies beyond it.
pub open spec fn clamp_nanos(n: int) -> nat {
    if n < 0 {
        0
    } else if n > MAX_NANOS {
        MAX_NANOS as nat
    } else {
        n as nat
    }
}

/// A length of time. Its view is the number of nanoseconds.
#[derive(Clone, Copy, Debug, PartialEq, Eq, Structural)]
pub struct Span {
    pub nanos: u64,
}

impl View for Span {
    type V = nat;

    open spec fn view(&self) -> nat {
        self.nanos as nat
    }
}

impl Span {
    /// The span of `nanos` nanoseconds.
    pub fn from_nanos(nanos: u64) -> (r: Span)
        ensures
            r@ == nanos,
    {
        Span { nanos }
    }

    /// The span of `micros` microseconds, cut off at [`MAX_NANOS`].
    pub fn from_micros(micros: u64) -> (r: Span)
        ensures
            r@ == clamp_nanos(micros * NANOS_PER_MICRO),
    {
        match micros.checked_mul(NANOS_PER_MICRO) {
            Some(nanos) => Span { nanos },
            None => Span { nanos: MAX_NANOS },
        }
    }

    /// The span of `millis` milliseconds, cut off at [`MAX_NANOS`].
    pub fn from_millis(millis: u64) -> (r: Span)
        ensures
            r@ == clamp_nanos(millis * NANOS_PER_MILLI),
    {
        match millis.checked_mul(NANOS_PER_MILLI) {
            Some(nanos) => Span { nanos },
            None => Span { nanos: MAX_NANOS },
        }
    }

    /// The span of `nanos` nanoseconds, cut off at [`MAX_NANOS`].
    pub fn saturating_from_nanos(nanos: u128) -> (r: Span)
        ensures
            r@ == clamp_nanos(nanos as int),
    {
        if nanos > MAX_NANOS as u128 {
            Span { nanos: MAX_NANOS }
        } else {
            Span { nanos: nanos as u64 }
        }
    }

    /// The number of nanoseconds.
    pub fn as_nanos(self) -> (n: u64)
        ensures
            n == self@,
    {
        self.nanos
    }

    /// Whether the span is empty.
    pub fn is_zero(self) -> (r: bool)
        ensures
            r == (self@ == 0),
    {
        self.nanos == 0
    }
}

/// A reading of a monotonic clock. Its view is the number of nanoseconds since
/// the clock's origin.
#[derive(Clone, Copy, Debug, PartialEq, Eq, Structural)]
pub struct Moment {
    pub nanos: u64,
}

impl View for Moment {
    type V = nat;

    open spec fn view(&self) -> nat {
        self.nanos as nat
    }
}

impl Moment {
    /// The reading `nanos` nanoseconds after the origin.
    pub fn from_nanos(nanos: u64) -> (r: Moment)
        ensures
            r@ == nanos,
    {
        Moment { nanos }
    }

    /// The reading `nanos` nanoseconds after the origin, cut off at [`MAX_NANOS`].
    pub fn saturating_from_nanos(nanos: u128) -> (r: Moment)
        ensures
            r@ == clamp_nanos(nanos as int),
    {
        if nanos > MAX_NANOS as u128 {
            Moment { nanos: MAX_NANOS }
        } else {
            Moment { nanos: nanos as u64 }
        }
    }

    /// The number of nanoseconds since the origin.
    pub fn as_nanos(self) -> (n: u64)
        ensures
            n == self@,
    {
        self.nanos
    }

    /// The reading `span` later, or `None` where that lies beyond [`MAX_NANOS`].
    pub fn checked_add(self, span: Span) -> (r: Option<Moment>)
        ensures
            r is Some <==> self@ + span@ <= MAX_NANOS,
            r is Some ==> r.unwrap()@ == self@ + span@,
    {
        match self.nanos.checked_add(span.nanos) {
            Some(nanos) => Some(Moment { nanos }),
            None => None,
        }
    }

    /// Whether this reading is `other` or comes before it.
    pub fn is_reached_at(self, other: Moment) -> (r: bool)
        ensures
            r == (self@ <= other@),
    {
        self.nanos <= other.nanos
    }
}

} // verus!
