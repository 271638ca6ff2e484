//! Poll-driven timers on a kernel timer descriptor.
//!
//! A [`Delay`] completes once at or after a deadline; an [`Interval`] ticks at an
//! anchor and every period after it. Neither blocks and neither spawns a thread:
//! each `poll` is one step of a small state machine that arms the timer
//! descriptor on first use and afterwards only asks it whether it has expired.
//!
//! Time is kept in whole nanoseconds: a [`Moment`] is a reading of a monotonic
//! [`Clock`], a [`Span`] the distance between two readings. Every step exists in
//! two forms: one that reads the clock itself, and one (`*_at`) that is handed
//! the reading and whose contract fixes the result.

pub mod clock;
pub mod delay;
pub mod interval;
pub mod policy;
pub mod progress;
pub mod time;
pub mod timer;

pub use clock::Clock;
pub use delay::{Delay, DelayView, Phase};
pub use interval::{Interval, IntervalView};
pub use progress::Progress;
pub use time::{Moment, Span};
pub use timer::{Schedule, Timer, TimerError};
