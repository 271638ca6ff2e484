//! The kernel timer descriptor, and what this library last asked of it.

use crate::time::Span;
use std::io::Error;
use std::time::Duration;
use timerfd::{ClockId, SetTimeFlags, TimerFd, TimerState};
use vstd::prelude::*;

verus! {

/// `timerfd::TimerFd`: an owned timer descriptor. Nothing inside it is visible here.
#[verifier::external_type_specification]
#[verifier::external_body]
pub struct ExTimerFd(TimerFd);

/// `std::io::Error`: the operating system's account of a failure. Carried, never read.
#[verifier::external_type_specification]
#[verifier::external_body]
pub struct ExIoError(Error);

/// An expiration schedule of a timer.
#[derive(Clone, Copy, Debug, PartialEq, Eq, Structural)]
pub enum Schedule {
    /// The timer does not fire.
    Disarmed,
    /// The timer fires once, after the given span.
    Oneshot(Span),
    /// The timer fires after `first`, then after every `period`.
    Periodic { first: Span, period: Span },
}

/// Why no timer could be handed out.
#[derive(Debug)]
pub enum TimerError {
    /// The operating system refused to create the timer descriptor.
    Create(Error),
    /// The first tick asked for lies beyond the last moment a clock can show.
    Overflow,
}

/// Calls `timerfd::TimerFd::new_custom` for the monotonic clock, non-blocking and
/// closed on exec. Whether the descriptor is granted is the operating system's
/// decision, so nothing is claimed of the result.
#[verifier::external_body]
fn open_monotonic() -> Result<TimerFd, Error> {
    TimerFd::new_custom(ClockId::Monotonic, true, true)
}

/// Calls `timerfd::TimerFd::set_state` with the relative-time flags, handing
/// over `schedule` variant for variant. The outside call only lends the
/// descriptor to the system call, so the descriptor is the one it was. The
/// outside call panics on a span of more than `i64::MAX` seconds; no span of
/// nanoseconds in a `u64` is that long.
#[verifier::external_body]
fn set_schedule(fd: &mut TimerFd, schedule: Schedule)
    ensures
        *final(fd) == *old(fd),
{
    let state = match schedule {
        Schedule::Disarmed => TimerState::Disarmed,
        Schedule::Oneshot(after) => TimerState::Oneshot(Duration::from_nanos(after.nanos)),
        Schedule::Periodic { first, period } => TimerState::Periodic {
            current: Duration::from_nanos(first.nanos),
            interval: Duration::from_nanos(period.nanos),
        },
    };
    fd.set_state(state, SetTimeFlags::Default);
}

/// Calls `timerfd::TimerFd::read`: the number of expirations since the last
/// read, which the read also clears; on a non-blocking descriptor it is 0 where
/// the timer has not expired. The count depends on the running clock, so
/// nothing is claimed of it. The outside call waits on a blocking descriptor
/// and panics on a read error other than "would block" and "interrupted"; the
/// descriptors that reach it all come from `open_monotonic`, non-blocking and
/// on the monotonic clock, where the kernel knows no other error.
#[verifier::external_body]
fn read_expirations(fd: &TimerFd) -> u64 {
    fd.read()
}

/// A non-blocking timer descriptor on the monotonic clock, together with the
/// schedule it was last armed with.
#[derive(Debug)]
pub struct Timer {
    fd: TimerFd,
    schedule: Schedule,
}

impl Timer {
    /// The schedule that the timer was last armed with; `Disarmed` until it is
    /// armed for the first time.
    pub closed spec fn schedule_spec(&self) -> Schedule {
        self.schedule
    }

    /// The descriptor behind the timer.
    pub closed spec fn descriptor_spec(&self) -> TimerFd {
        self.fd
    }

    /// What creating a timer comes to, given what the operating system answered.
    fn from_opened(opened: Result<TimerFd, Error>) -> (r: Result<Timer, TimerError>)
        ensures
            match (opened, r) {
                (Ok(fd), Ok(timer)) => timer.descriptor_spec() == fd && timer.schedule_spec()
                    == Schedule::Disarmed,
                (Err(cause), Err(error)) => error == TimerError::Create(cause),
                _ => false,
            },
    {
        match opened {
            Ok(fd) => Ok(Timer { fd, schedule: Schedule::Disarmed }),
            Err(cause) => Err(TimerError::Create(cause)),
        }
    }

    /// Creates a timer on the monotonic clock. It is not armed. Fails only where
    /// the operating system hands out no descriptor.
    pub fn create() -> (r: Result<Timer, TimerError>)
        ensures
            match r {
                Ok(timer) => timer.schedule_spec() == Schedule::Disarmed,
                Err(error) => error is Create,
            },
    {
        Timer::from_opened(open_monotonic())
    }

    /// Arms the timer to fire once, `after` from now.
    pub fn arm_oneshot(&mut self, after: Span)
        requires
            after@ > 0,
        ensures
            final(self).schedule_spec() == Schedule::Oneshot(after),
            final(self).descriptor_spec() == old(self).descriptor_spec(),
    {
        let schedule = Schedule::Oneshot(after);
        set_schedule(&mut self.fd, schedule);
        self.schedule = schedule;
    }

    /// Arms the timer to fire `first` from now, and after every `period` from then on.
    pub fn arm_periodic(&mut self, first: Span, period: Span)
        requires
            first@ > 0,
            period@ > 0,
        ensures
            final(self).schedule_spec() == (Schedule::Periodic { first, period }),
            final(self).descriptor_spec() == old(self).descriptor_spec(),
    {
        let schedule = Schedule::Periodic { first, period };
        set_schedule(&mut self.fd, schedule);
        self.schedule = schedule;
    }

    /// Asks the timer, without blocking, how often it has expired since it was
    /// last asked. The timer forgets the expirations that it reports.
    pub(crate) fn take_expirations(&self) -> (count: u64) {
        read_expirations(&self.fd)
    }

    /// The schedule that the timer was last armed with.
    pub fn schedule(&self) -> (r: Schedule)
        ensures
            r == self.schedule_spec(),
    {
        self.schedule
    }

    /// The descriptor behind the timer, for registering it with a reactor.
    pub fn descriptor(&self) -> (r: &TimerFd)
        ensures
            *r == self.descriptor_spec(),
    {
        &self.fd
    }
}

} // verus!
