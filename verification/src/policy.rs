//! The rules that both timers apply when they are first polled: what counts as
//! a deadline already passed, and what a timer is never armed with.

use crate::time::{Moment, Span};
use vstd::prelude::*;

verus! {

/// The time left at `now` until `deadline`: `None` once the deadline is
/// reached, otherwise the span between the two, which is never empty.
pub open spec fn remaining_spec(deadline: Moment, now: Moment) -> Option<Span> {
    if deadline@ <= now@ {
        None
    } else {
        Some(Span { nanos: (deadline.nanos - now.nanos) as u64 })
    }
}

/// The span after which a periodic timer polled for the first time at `now`
/// fires first: the time left until `anchor` where the anchor lies ahead, and
/// one full `period` where it is already reached.
pub open spec fn first_expiry_spec(anchor: Moment, now: Moment, period: Span) -> Span {
    if now@ < anchor@ {
        Span { nanos: (anchor.nanos - now.nanos) as u64 }
    } else {
        period
    }
}

/// Computes [`remaining_spec`].
pub fn remaining(deadline: Moment, now: Moment) -> (r: Option<Span>)
    ensures
        r == remaining_spec(deadline, now),
        r is Some <==> deadline@ > now@,
        r is Some ==> r.unwrap()@ == deadline@ - now@,
{
    if deadline.nanos <= now.nanos {
        None
    } else {
        Some(Span { nanos: deadline.nanos - now.nanos })
    }
}

/// Computes [`first_expiry_spec`]. A first span that came out empty would be
/// replaced by the period, since a timer armed with it would be disarmed; the
/// contract shows that this never changes the result.
pub fn first_expiry(anchor: Moment, now: Moment, period: Span) -> (r: Span)
    ensures
        r == first_expiry_spec(anchor, now, period),
{
    let first = match remaining(anchor, now) {
        Some(left) => left,
        None => period,
    };
    if first.is_zero() {
        period
    } else {
        first
    }
}

/// With a period that is not empty, the first expiry is not empty either, and
/// it is never longer than both the period and the way to the anchor: the
/// timer is never armed with a first span that would disarm it.
pub proof fn law_first_expiry_positive(anchor: Moment, now: Moment, period: Span)
    requires
        period@ > 0,
    ensures
        first_expiry_spec(anchor, now, period)@ > 0,
        first_expiry_spec(anchor, now, period)@ <= period@ || first_expiry_spec(anchor, now, period)@
            <= anchor@,
{
}

} // verus!
