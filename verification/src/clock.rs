//! A monotonic clock whose readings are plain numbers.

use crate::time::Moment;
use std::time::Instant;
use vstd::prelude::*;

verus! {

/// `std::time::Instant`: a point on the monotonic clock that only std can
/// compare or subtract. Carried, never read.
#[verifier::external_type_specification]
#[verifier::external_body]
pub struct ExInstant(Instant);

/// Calls `std::time::Instant::now`. The result is the time of the call, so
/// nothing is claimed of it.
#[verifier::external_body]
fn instant_now() -> Instant {
    Instant::now()
}

/// Calls `std::time::Instant::saturating_duration_since` and hands the
/// duration back as its nanoseconds: the time from `origin` to `instant`, zero
/// where `instant` is the earlier of the two. Both arguments are opaque here,
/// so nothing is claimed of the number.
#[verifier::external_body]
fn nanos_between(origin: &Instant, instant: &Instant) -> u128 {
    instant.saturating_duration_since(*origin).as_nanos()
}

/// A monotonic clock. Its readings count the nanoseconds since the clock was
/// started, so readings of one clock can be compared and subtracted.
#[derive(Debug)]
pub struct Clock {
    origin: Instant,
}

impl Clock {
    /// Starts a clock; its origin is the moment of the call.
    pub fn start() -> Clock {
        Clock { origin: instant_now() }
    }

    /// Where `instant` lies on this clock. An instant before the origin reads
    /// as the origin, one too far after it as the last moment.
    pub fn moment_of(&self, instant: &Instant) -> Moment {
        Moment::saturating_from_nanos(nanos_between(&self.origin, instant))
    }

    /// Reads the clock.
    pub fn now(&self) -> Moment {
        let instant = instant_now();
        self.moment_of(&instant)
    }
}

} // verus!
