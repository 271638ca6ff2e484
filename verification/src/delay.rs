//! A wait that completes once, at or after a deadline.

use crate::clock::Clock;
use crate::policy::{remaining, remaining_spec};
use crate::progress::Progress;
use crate::time::Moment;
use crate::timer::{Schedule, Timer, TimerError};
use futures::task::Task;
use vstd::prelude::*;

verus! {

/// `futures::task::Task`: the handle by which a suspended caller is told to
/// poll again. Carried, never read.
#[verifier::external_type_specification]
#[verifier::external_body]
pub struct ExTask(Task);

/// Calls `futures::task::Task::notify`, which asks the scheduler to poll the
/// task again. It changes nothing that this library holds.
#[verifier::external_body]
fn notify(task: &Task) {
    task.notify()
}

/// Where a delay stands.
#[derive(Clone, Copy, Debug, PartialEq, Eq, Structural)]
pub enum Phase {
    /// The timer is not armed for the current deadline.
    Unarmed,
    /// The timer is armed for the current deadline and has not been seen to expire.
    Armed,
    /// The delay has completed.
    Fired,
}

/// What a [`Delay`] is, to its contracts.
pub struct DelayView {
    /// The moment at or after which the delay completes.
    pub deadline: Moment,
    /// How far the delay has come.
    pub phase: Phase,
    /// What the timer was last armed with.
    pub schedule: Schedule,
    /// The caller to wake when the deadline is changed, while one is suspended.
    pub waiter: Option<Task>,
}

impl DelayView {
    /// A delay as `new` makes it: nothing armed, nobody waiting.
    pub open spec fn created(deadline: Moment) -> DelayView {
        DelayView { deadline, phase: Phase::Unarmed, schedule: Schedule::Disarmed, waiter: None }
    }

    /// An armed delay is armed for a span that is not empty and does not reach
    /// past its deadline; a completed delay has nobody waiting.
    pub open spec fn wf(self) -> bool {
        &&& self.phase is Armed ==> (self.schedule matches Schedule::Oneshot(after) && 0 < after@
            <= self.deadline@)
        &&& self.phase is Fired ==> self.waiter is None
    }

    /// Whether the deadline is reached at `now`.
    pub open spec fn is_elapsed_at(self, now: Moment) -> bool {
        self.deadline@ <= now@
    }

    /// The delay after its deadline was replaced: unarmed, whatever it was.
    pub open spec fn reset(self, deadline: Moment) -> DelayView {
        DelayView { deadline, phase: Phase::Unarmed, ..self }
    }

    /// The first half of a poll at `now`. An unarmed delay completes on the
    /// spot where its deadline is reached, and otherwise arms the timer for the
    /// time left. An armed or completed delay stays as it is.
    pub open spec fn started(self, now: Moment) -> DelayView {
        match self.phase {
            Phase::Unarmed => match remaining_spec(self.deadline, now) {
                None => DelayView { phase: Phase::Fired, waiter: None, ..self },
                Some(left) => DelayView {
                    phase: Phase::Armed,
                    schedule: Schedule::Oneshot(left),
                    ..self
                },
            },
            _ => self,
        }
    }

    /// The second half of a poll: an armed delay completes where the timer has
    /// `expired`, and otherwise notes `waiter` in place of whoever waited
    /// before. An unarmed or completed delay stays as it is.
    pub open spec fn settled(self, expired: bool, waiter: Option<Task>) -> DelayView {
        match self.phase {
            Phase::Armed => if expired {
                DelayView { phase: Phase::Fired, waiter: None, ..self }
            } else {
                DelayView { waiter, ..self }
            },
            _ => self,
        }
    }

    /// A whole poll at `now`, during which the timer is found `expired` or not.
    pub open spec fn polled(self, now: Moment, expired: bool, waiter: Option<Task>) -> DelayView {
        self.started(now).settled(expired, waiter)
    }

    /// What a poll that leaves the delay in this state reports.
    pub open spec fn progress(self) -> Progress {
        if self.phase is Fired {
            Progress::Ready
        } else {
            Progress::Pending
        }
    }
}

/// A wait that completes once, at or after a deadline, and that can be pointed
/// at another deadline. It owns its timer.
#[derive(Debug)]
pub struct Delay {
    timer: Timer,
    deadline: Moment,
    phase: Phase,
    waiter: Option<Task>,
}

impl View for Delay {
    type V = DelayView;

    closed spec fn view(&self) -> DelayView {
        DelayView {
            deadline: self.deadline,
            phase: self.phase,
            schedule: self.timer.schedule_spec(),
            waiter: self.waiter,
        }
    }
}

impl Delay {
    /// The timer that the delay owns.
    pub closed spec fn timer_spec(&self) -> Timer {
        self.timer
    }

    /// A delay for `deadline` on a timer that exists already. The timer is left
    /// as it is.
    pub fn with_timer(timer: Timer, deadline: Moment) -> (r: Delay)
        ensures
            r@ == (DelayView {
                deadline,
                phase: Phase::Unarmed,
                schedule: timer.schedule_spec(),
                waiter: None,
            }),
            r.timer_spec() == timer,
            r@.wf(),
    {
        Delay { timer, deadline, phase: Phase::Unarmed, waiter: None }
    }

    /// A delay that completes at `deadline`, on a timer of its own. The timer is
    /// not armed before the first poll. Fails only where no timer can be created.
    pub fn new(deadline: Moment) -> (r: Result<Delay, TimerError>)
        ensures
            match r {
                Ok(delay) => delay@ == DelayView::created(deadline) && delay@.wf(),
                Err(error) => error is Create,
            },
    {
        match Timer::create() {
            Ok(timer) => Ok(Delay::with_timer(timer, deadline)),
            Err(error) => Err(error),
        }
    }

    /// The moment at or after which the delay completes.
    pub fn deadline(&self) -> (r: Moment)
        ensures
            r == self@.deadline,
    {
        self.deadline
    }

    /// Whether the deadline is reached at `now`.
    pub fn is_elapsed_at(&self, now: Moment) -> (r: bool)
        ensures
            r == self@.is_elapsed_at(now),
    {
        self.deadline.is_reached_at(now)
    }

    /// Whether the deadline is reached by now, on `clock`. The answer is that of
    /// [`Delay::is_elapsed_at`] for the moment at which the clock was read.
    pub fn is_elapsed(&self, clock: &Clock) -> (r: bool)
        ensures
            exists|now: Moment| r == #[trigger] self@.is_elapsed_at(now),
    {
        let now = clock.now();
        self.is_elapsed_at(now)
    }

    /// Replaces the deadline. The next poll arms the timer anew, for the new
    /// deadline, and a caller that waits on the delay is woken so that it polls.
    pub fn reset(&mut self, deadline: Moment)
        ensures
            final(self)@ == old(self)@.reset(deadline),
            final(self).timer_spec() == old(self).timer_spec(),
            final(self)@.wf(),
    {
        self.phase = Phase::Unarmed;
        self.deadline = deadline;
        match &self.waiter {
            Some(task) => notify(task),
            None => {},
        }
    }

    /// The first half of a poll at `now`: completes an unarmed delay whose
    /// deadline is reached, and arms the timer of any other unarmed delay for
    /// the time left.
    pub fn start_at(&mut self, now: Moment)
        ensures
            final(self)@ == old(self)@.started(now),
            final(self).timer_spec().descriptor_spec() == old(self).timer_spec().descriptor_spec(),
            old(self)@.wf() ==> final(self)@.wf(),
    {
        match self.phase {
            Phase::Unarmed => match remaining(self.deadline, now) {
                None => {
                    self.waiter = None;
                    self.phase = Phase::Fired;
                },
                Some(left) => {
                    self.timer.arm_oneshot(left);
                    self.phase = Phase::Armed;
                },
            },
            _ => {},
        }
    }

    /// The second half of a poll, given the number of `expirations` that the
    /// timer reported: completes an armed delay whose timer has expired, and
    /// otherwise notes `waiter` as the caller to wake.
    pub fn settle(&mut self, expirations: u64, waiter: Option<Task>) -> (r: Progress)
        ensures
            final(self)@ == old(self)@.settled(expirations > 0, waiter),
            final(self).timer_spec() == old(self).timer_spec(),
            old(self)@.wf() ==> final(self)@.wf(),
            r == final(self)@.progress(),
    {
        match self.phase {
            Phase::Armed => if expirations > 0 {
                self.waiter = None;
                self.phase = Phase::Fired;
                Progress::Ready
            } else {
                self.waiter = waiter;
                Progress::Pending
            },
            Phase::Fired => Progress::Ready,
            Phase::Unarmed => Progress::Pending,
        }
    }

    /// Asks the timer of an armed delay whether it has expired, and settles.
    fn await_timer(&mut self, waiter: Option<Task>) -> (r: Progress)
        ensures
            exists|expired: bool| final(self)@ == #[trigger] old(self)@.settled(expired, waiter),
            !(old(self)@.phase is Armed) ==> final(self)@ == old(self)@,
            final(self).timer_spec() == old(self).timer_spec(),
            old(self)@.wf() ==> final(self)@.wf(),
            r == final(self)@.progress(),
    {
        match self.phase {
            Phase::Armed => {
                let expirations = self.timer.take_expirations();
                let r = self.settle(expirations, waiter);
                assert(self@ == old(self)@.settled(expirations > 0, waiter));
                r
            },
            _ => {
                let r = self.settle(0, waiter);
                assert(self@ == old(self)@.settled(false, waiter));
                r
            },
        }
    }

    /// One poll at `now`: [`Delay::start_at`], then one question to the timer
    /// where it is armed, then [`Delay::settle`]. A delay that is not armed
    /// after the first half is not asked and does not depend on the timer.
    pub fn poll_at(&mut self, now: Moment, waiter: Option<Task>) -> (r: Progress)
        ensures
            exists|expired: bool| final(self)@ == #[trigger] old(self)@.polled(now, expired, waiter),
            !(old(self)@.started(now).phase is Armed) ==> final(self)@ == old(self)@.started(now),
            final(self).timer_spec().descriptor_spec() == old(self).timer_spec().descriptor_spec(),
            old(self)@.wf() ==> final(self)@.wf(),
            r == final(self)@.progress(),
    {
        self.start_at(now);
        let ghost mid = self@;
        let r = self.await_timer(waiter);
        proof {
            let expired = choose|expired: bool| self@ == #[trigger] mid.settled(expired, waiter);
            assert(self@ == old(self)@.polled(now, expired, waiter));
        }
        r
    }

    /// One poll. The clock is read only while the delay is unarmed; the poll is
    /// then [`Delay::poll_at`] for the moment that the clock showed.
    pub fn poll(&mut self, clock: &Clock, waiter: Option<Task>) -> (r: Progress)
        ensures
            exists|now: Moment, expired: bool| final(self)@ == #[trigger] old(self)@.polled(now, expired, waiter),
            final(self).timer_spec().descriptor_spec() == old(self).timer_spec().descriptor_spec(),
            old(self)@.wf() ==> final(self)@.wf(),
            r == final(self)@.progress(),
    {
        match self.phase {
            Phase::Unarmed => {
                let now = clock.now();
                let r = self.poll_at(now, waiter);
                proof {
                    let expired = choose|expired: bool| self@ == #[trigger] old(self)@.polled(now, expired, waiter);
                    assert(self@ == old(self)@.polled(now, expired, waiter));
                }
                r
            },
            _ => {
                let r = self.await_timer(waiter);
                proof {
                    let now = Moment { nanos: 0 };
                    let expired = choose|expired: bool| self@ == #[trigger] old(self)@.settled(expired, waiter);
                    assert(self@ == old(self)@.polled(now, expired, waiter));
                }
                r
            },
        }
    }

    /// How far the delay has come.
    pub fn phase(&self) -> (r: Phase)
        ensures
            r == self@.phase,
    {
        self.phase
    }

    /// Whether a caller is noted as waiting on the delay.
    pub fn has_waiter(&self) -> (r: bool)
        ensures
            r == (self@.waiter is Some),
    {
        self.waiter.is_some()
    }

    /// The timer that the delay owns.
    pub fn timer(&self) -> (r: &Timer)
        ensures
            *r == self.timer_spec(),
            r.schedule_spec() == self@.schedule,
    {
        &self.timer
    }
}

/// A delay whose deadline was already reached when it was made completes on
/// its first poll, whenever that poll comes and whatever the timer would say,
/// and its timer is never armed.
pub proof fn law_passed_deadline_completes_unarmed(
    deadline: Moment,
    made_at: Moment,
    now: Moment,
    expired: bool,
    waiter: Option<Task>,
)
    requires
        deadline@ <= made_at@,
        made_at@ <= now@,
    ensures
        DelayView::created(deadline).polled(now, expired, waiter).progress() == Progress::Ready,
        DelayView::created(deadline).polled(now, expired, waiter).schedule == Schedule::Disarmed,
{
}

/// An unarmed delay polled at or after its deadline completes without its
/// timer being touched.
pub proof fn law_reached_deadline_skips_timer(
    delay: DelayView,
    now: Moment,
    expired: bool,
    waiter: Option<Task>,
)
    requires
        delay.phase is Unarmed,
        delay.deadline@ <= now@,
    ensures
        delay.polled(now, expired, waiter).progress() == Progress::Ready,
        delay.polled(now, expired, waiter).schedule == delay.schedule,
        delay.polled(now, expired, waiter) == delay.started(now),
{
}

/// An unarmed delay polled before its deadline arms the timer for exactly the
/// time that is left, and completes in that poll if and only if the timer is
/// found expired.
pub proof fn law_early_poll_arms_for_time_left(
    delay: DelayView,
    now: Moment,
    expired: bool,
    waiter: Option<Task>,
)
    requires
        delay.phase is Unarmed,
        now@ < delay.deadline@,
    ensures
        delay.polled(now, expired, waiter).schedule matches Schedule::Oneshot(after) && after@
            == delay.deadline@ - now@,
        delay.polled(now, expired, waiter).progress() == Progress::Ready <==> expired,
        !expired ==> delay.polled(now, expired, waiter).waiter == waiter,
{
}

/// An armed delay is never armed again by a poll: the poll completes if and
/// only if the timer is found expired, and otherwise notes who waits.
pub proof fn law_armed_poll_waits_for_timer(
    delay: DelayView,
    now: Moment,
    expired: bool,
    waiter: Option<Task>,
)
    requires
        delay.phase is Armed,
    ensures
        delay.polled(now, expired, waiter).schedule == delay.schedule,
        delay.polled(now, expired, waiter).deadline == delay.deadline,
        delay.polled(now, expired, waiter).progress() == Progress::Ready <==> expired,
        !expired ==> delay.polled(now, expired, waiter).waiter == waiter,
{
}

/// A completed delay stays completed: a further poll reports completion again
/// and changes nothing, so the timer is not armed a second time.
pub proof fn law_completed_stays_completed(
    delay: DelayView,
    now: Moment,
    expired: bool,
    waiter: Option<Task>,
)
    requires
        delay.phase is Fired,
    ensures
        delay.polled(now, expired, waiter) == delay,
        delay.polled(now, expired, waiter).progress() == Progress::Ready,
{
}

/// After a reset the next poll goes by the new deadline alone: before it, the
/// timer is armed for the time left until the new deadline, whatever the old
/// deadline was and whatever the timer was armed with; at or after it, the
/// delay completes without the timer. Whoever waited is still noted, so that
/// the reset can wake them.
pub proof fn law_reset_rearms_for_new_deadline(
    delay: DelayView,
    deadline: Moment,
    now: Moment,
    expired: bool,
    waiter: Option<Task>,
)
    ensures
        delay.reset(deadline).waiter == delay.waiter,
        delay.reset(deadline).schedule == delay.schedule,
        now@ < deadline@ ==> (delay.reset(deadline).polled(now, expired, waiter).schedule matches Schedule::Oneshot(
            after,
        ) && after@ == deadline@ - now@),
        now@ < deadline@ ==> (delay.reset(deadline).polled(now, expired, waiter).progress()
            == Progress::Ready <==> expired),
        deadline@ <= now@ ==> delay.reset(deadline).polled(now, expired, waiter).progress()
            == Progress::Ready,
        deadline@ <= now@ ==> delay.reset(deadline).polled(now, expired, waiter).schedule
            == delay.schedule,
{
}

/// Between two resets the timer is armed at most once: whatever the first
/// poll left it armed with, a second poll leaves in place, and the deadline
/// stays what it was.
pub proof fn law_armed_at_most_once(
    delay: DelayView,
    first: Moment,
    first_expired: bool,
    first_waiter: Option<Task>,
    second: Moment,
    second_expired: bool,
    second_waiter: Option<Task>,
)
    ensures
        delay.polled(first, first_expired, first_waiter).polled(
            second,
            second_expired,
            second_waiter,
        ).schedule == delay.polled(first, first_expired, first_waiter).schedule,
        delay.polled(first, first_expired, first_waiter).polled(
            second,
            second_expired,
            second_waiter,
        ).deadline == delay.deadline,
{
}

/// What a new delay satisfies, every reset and every poll preserves: an armed
/// delay is armed for a span that is not empty and ends no later than its
/// deadline, and a completed delay has nobody waiting.
pub proof fn law_well_formed_throughout(
    delay: DelayView,
    deadline: Moment,
    now: Moment,
    expired: bool,
    waiter: Option<Task>,
)
    requires
        delay.wf(),
    ensures
        DelayView::created(deadline).wf(),
        delay.reset(deadline).wf(),
        delay.started(now).wf(),
        delay.settled(expired, waiter).wf(),
        delay.polled(now, expired, waiter).wf(),
{
}

} // verus!
