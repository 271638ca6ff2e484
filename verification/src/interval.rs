//! A wait that ticks at an anchor and after every period from then on.

use crate::clock::Clock;
use crate::policy::{first_expiry, first_expiry_spec};
use crate::progress::Progress;
use crate::time::{Moment, Span, MAX_NANOS};
use crate::timer::{Schedule, Timer, TimerError};
use vstd::prelude::*;

verus! {

/// What an [`Interval`] is, to its contracts.
pub struct IntervalView {
    /// The moment of the first tick.
    pub anchor: Moment,
    /// The time between ticks. Where it is empty, every poll ticks.
    pub period: Span,
    /// Whether the timer has been armed. It is armed once and never again.
    pub armed: bool,
    /// What the timer was last armed with.
    pub schedule: Schedule,
}

impl IntervalView {
    /// An interval as `new` makes it: nothing armed.
    pub open spec fn created(anchor: Moment, period: Span) -> IntervalView {
        IntervalView { anchor, period, armed: false, schedule: Schedule::Disarmed }
    }

    /// An interval made at `now` to tick first one `period` later.
    pub open spec fn created_from(now: Moment, period: Span) -> IntervalView
        recommends
            IntervalView::fits(now, period),
    {
        IntervalView::created(Moment { nanos: (now.nanos + period.nanos) as u64 }, period)
    }

    /// Whether an interval made at `now` can tick first one `period` later:
    /// whether that moment is one a clock can show.
    pub open spec fn fits(now: Moment, period: Span) -> bool {
        now@ + period@ <= MAX_NANOS
    }

    /// An armed interval has a period that is not empty, and is armed with
    /// that period and a first span that is not empty.
    pub open spec fn wf(self) -> bool {
        self.armed ==> self.period@ > 0 && (self.schedule matches Schedule::Periodic {
            first,
            period,
        } && first@ > 0 && period == self.period)
    }

    /// The first half of a poll at `now`. An interval that is not armed and
    /// has a period arms the timer, to fire first after the first expiry and
    /// then after every period. An armed interval stays as it is, and so does
    /// one without a period, which never arms.
    pub open spec fn started(self, now: Moment) -> IntervalView {
        if self.armed || self.period@ == 0 {
            self
        } else {
            IntervalView {
                armed: true,
                schedule: Schedule::Periodic {
                    first: first_expiry_spec(self.anchor, now, self.period),
                    period: self.period,
                },
                ..self
            }
        }
    }

    /// What a poll reports once the first half is done: an interval without
    /// a period ticks at once; any other ticks where its timer is armed and
    /// has `expired`.
    pub open spec fn tick(self, expired: bool) -> Progress {
        if self.period@ == 0 || (self.armed && expired) {
            Progress::Ready
        } else {
            Progress::Pending
        }
    }
}

/// A wait that ticks at an anchor and after every period from then on, until
/// it is dropped. It owns its timer.
#[derive(Debug)]
pub struct Interval {
    timer: Timer,
    anchor: Moment,
    period: Span,
    armed: bool,
}

impl View for Interval {
    type V = IntervalView;

    closed spec fn view(&self) -> IntervalView {
        IntervalView {
            anchor: self.anchor,
            period: self.period,
            armed: self.armed,
            schedule: self.timer.schedule_spec(),
        }
    }
}

impl Interval {
    /// The timer that the interval owns.
    pub closed spec fn timer_spec(&self) -> Timer {
        self.timer
    }

    /// An interval on a timer that exists already. The timer is left as it is.
    pub fn with_timer(timer: Timer, anchor: Moment, period: Span) -> (r: Interval)
        ensures
            r@ == (IntervalView { anchor, period, armed: false, schedule: timer.schedule_spec() }),
            r.timer_spec() == timer,
            r@.wf(),
    {
        Interval { timer, anchor, period, armed: false }
    }

    /// An interval that ticks first at `anchor` and then after every `period`,
    /// on a timer of its own. The timer is not armed before the first poll.
    /// Fails only where no timer can be created.
    pub fn new(anchor: Moment, period: Span) -> (r: Result<Interval, TimerError>)
        ensures
            match r {
                Ok(interval) => interval@ == IntervalView::created(anchor, period),
                Err(error) => error is Create,
            },
    {
        match Timer::create() {
            Ok(timer) => Ok(Interval::with_timer(timer, anchor, period)),
            Err(error) => Err(error),
        }
    }

    /// Whether `made` is what making an interval at `now`, to tick first one
    /// `period` later, may come to: the interval anchored at `now + period`;
    /// `Overflow` exactly where that moment is beyond what a clock can show;
    /// or, where it is not, the refusal of a timer.
    pub open spec fn made_at(now: Moment, period: Span, made: Result<Interval, TimerError>) -> bool {
        match made {
            Ok(interval) => IntervalView::fits(now, period) && interval@
                == IntervalView::created_from(now, period),
            Err(TimerError::Overflow) => !IntervalView::fits(now, period),
            Err(TimerError::Create(_)) => IntervalView::fits(now, period),
        }
    }

    /// An interval made at `now` that ticks first one `period` later: the same
    /// as [`Interval::new`] with the anchor `now + period`. Where that first
    /// tick lies beyond the last moment a clock can show, the result is
    /// `Overflow` and no timer is created.
    pub fn new_interval_at(now: Moment, period: Span) -> (r: Result<Interval, TimerError>)
        ensures
            Interval::made_at(now, period, r),
    {
        match now.checked_add(period) {
            Some(anchor) => Interval::new(anchor, period),
            None => Err(TimerError::Overflow),
        }
    }

    /// An interval that ticks first one `period` from now, on `clock`: the
    /// clock is read once, and the rest is [`Interval::new_interval_at`] for
    /// the moment that it showed.
    pub fn new_interval(clock: &Clock, period: Span) -> (r: Result<Interval, TimerError>)
        ensures
            exists|now: Moment| #[trigger] Interval::made_at(now, period, r),
    {
        let now = clock.now();
        let r = Interval::new_interval_at(now, period);
        assert(Interval::made_at(now, period, r));
        r
    }

    /// The first half of a poll at `now`: arms the timer of an interval that
    /// has a period and is not armed yet.
    pub fn start_at(&mut self, now: Moment)
        ensures
            final(self)@ == old(self)@.started(now),
            final(self).timer_spec().descriptor_spec() == old(self).timer_spec().descriptor_spec(),
            old(self)@.wf() ==> final(self)@.wf(),
    {
        if !self.armed && !self.period.is_zero() {
            let first = first_expiry(self.anchor, now, self.period);
            self.timer.arm_periodic(first, self.period);
            self.armed = true;
        }
    }

    /// What a poll reports, given the number of `expirations` that the timer
    /// reported.
    pub fn tick_for(&self, expirations: u64) -> (r: Progress)
        ensures
            r == self@.tick(expirations > 0),
    {
        if self.period.is_zero() || (self.armed && expirations > 0) {
            Progress::Ready
        } else {
            Progress::Pending
        }
    }

    /// Asks the timer of an armed interval whether it has expired.
    fn await_timer(&self) -> (r: Progress)
        ensures
            exists|expired: bool| r == #[trigger] self@.tick(expired),
            self@.period@ == 0 ==> r == Progress::Ready,
    {
        if self.armed {
            let expirations = self.timer.take_expirations();
            let r = self.tick_for(expirations);
            assert(r == self@.tick(expirations > 0));
            r
        } else {
            let r = self.tick_for(0);
            assert(r == self@.tick(false));
            r
        }
    }

    /// One poll at `now`: [`Interval::start_at`], then one question to the
    /// timer where it is armed. An interval without a period is never armed,
    /// never asks and ticks on every poll.
    pub fn poll_at(&mut self, now: Moment) -> (r: Progress)
        ensures
            final(self)@ == old(self)@.started(now),
            final(self).timer_spec().descriptor_spec() == old(self).timer_spec().descriptor_spec(),
            old(self)@.wf() ==> final(self)@.wf(),
            exists|expired: bool| r == #[trigger] final(self)@.tick(expired),
            old(self)@.period@ == 0 ==> r == Progress::Ready,
    {
        self.start_at(now);
        self.await_timer()
    }

    /// One poll. The clock is read only while the interval is not armed; the
    /// poll is then [`Interval::poll_at`] for the moment that the clock showed.
    pub fn poll(&mut self, clock: &Clock) -> (r: Progress)
        ensures
            exists|now: Moment| final(self)@ == #[trigger] old(self)@.started(now),
            final(self).timer_spec().descriptor_spec() == old(self).timer_spec().descriptor_spec(),
            old(self)@.wf() ==> final(self)@.wf(),
            exists|expired: bool| r == #[trigger] final(self)@.tick(expired),
            old(self)@.period@ == 0 ==> r == Progress::Ready,
    {
        if !self.armed {
            let now = clock.now();
            self.start_at(now);
            assert(self@ == old(self)@.started(now));
        } else {
            assert(self@ == old(self)@.started(Moment { nanos: 0 }));
        }
        self.await_timer()
    }

    /// The moment of the first tick.
    pub fn anchor(&self) -> (r: Moment)
        ensures
            r == self@.anchor,
    {
        self.anchor
    }

    /// The time between ticks.
    pub fn period(&self) -> (r: Span)
        ensures
            r == self@.period,
    {
        self.period
    }

    /// Whether the timer has been armed.
    pub fn is_armed(&self) -> (r: bool)
        ensures
            r == self@.armed,
    {
        self.armed
    }

    /// The timer that the interval owns.
    pub fn timer(&self) -> (r: &Timer)
        ensures
            *r == self.timer_spec(),
            r.schedule_spec() == self@.schedule,
    {
        &self.timer
    }
}

/// An interval whose anchor is not ahead when it is first polled is armed to
/// fire first after one full period, not at once, and then after every
/// period; the poll ticks only if the timer is found expired.
pub proof fn law_reached_anchor_waits_one_period(interval: IntervalView, now: Moment, expired: bool)
    requires
        !interval.armed,
        interval.period@ > 0,
        interval.anchor@ <= now@,
    ensures
        interval.started(now).schedule == (Schedule::Periodic {
            first: interval.period,
            period: interval.period,
        }),
        interval.started(now).tick(expired) == Progress::Ready <==> expired,
{
}

/// An interval whose anchor is ahead when it is first polled is armed to fire
/// first at the anchor, and then after every period.
pub proof fn law_anchor_ahead_fires_at_anchor(interval: IntervalView, now: Moment)
    requires
        !interval.armed,
        interval.period@ > 0,
        now@ < interval.anchor@,
    ensures
        interval.started(now).schedule matches Schedule::Periodic { first, period } && first@
            == interval.anchor@ - now@ && period == interval.period,
{
}

/// An interval without a period ticks on every poll, whenever it comes and
/// whatever the timer would say. The poll leaves it exactly as it was, so the
/// same holds of the next poll: its timer is never armed.
pub proof fn law_empty_period_always_ticks(interval: IntervalView, now: Moment, expired: bool)
    requires
        interval.period@ == 0,
    ensures
        interval.started(now) == interval,
        interval.started(now).tick(expired) == Progress::Ready,
{
}

/// A new interval without a period is never armed, however often it is
/// polled: after the first poll and after the second its timer is as
/// disarmed as it was made.
pub proof fn law_new_empty_interval_stays_disarmed(
    anchor: Moment,
    period: Span,
    first: Moment,
    second: Moment,
)
    requires
        period@ == 0,
    ensures
        IntervalView::created(anchor, period).started(first).schedule == Schedule::Disarmed,
        IntervalView::created(anchor, period).started(first).started(second).schedule
            == Schedule::Disarmed,
        !IntervalView::created(anchor, period).started(first).started(second).armed,
{
}

/// An armed interval is never armed again: every later poll leaves it as it
/// is and ticks if and only if the timer is found expired.
pub proof fn law_armed_interval_keeps_schedule(interval: IntervalView, now: Moment, expired: bool)
    requires
        interval.wf(),
        interval.armed,
    ensures
        interval.started(now) == interval,
        interval.started(now).tick(expired) == Progress::Ready <==> expired,
{
}

/// The timer of an interval is armed at most once: a second poll leaves the
/// interval exactly as the first poll left it.
pub proof fn law_interval_arms_once(interval: IntervalView, first: Moment, second: Moment)
    ensures
        interval.started(first).started(second) == interval.started(first),
{
}

/// What a new interval satisfies, every poll preserves: an armed interval has
/// a period, and is armed with that period and a first span that is not empty.
pub proof fn law_interval_well_formed_throughout(
    interval: IntervalView,
    anchor: Moment,
    period: Span,
    now: Moment,
)
    requires
        interval.wf(),
    ensures
        IntervalView::created(anchor, period).wf(),
        interval.started(now).wf(),
{
}

} // verus!
