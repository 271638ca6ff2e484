use std::time::Duration;
use timerfd::TimerState;
use timerfd_poll::{Delay, Moment, Schedule, Span, Timer, TimerError};

#[test]
fn created_timer_is_disarmed() {
    let timer = Timer::create().unwrap();
    assert_eq!(timer.schedule(), Schedule::Disarmed);
    assert_eq!(timer.descriptor().get_state(), TimerState::Disarmed);
}

#[test]
fn created_timer_does_not_block() {
    let timer = Timer::create().unwrap();
    assert_eq!(timer.descriptor().read(), 0);
}

#[test]
fn arm_oneshot_arms_the_descriptor_once() {
    let mut timer = Timer::create().unwrap();
    timer.arm_oneshot(Span::from_millis(7_200_000));
    assert_eq!(timer.schedule(), Schedule::Oneshot(Span::from_millis(7_200_000)));
    match timer.descriptor().get_state() {
        TimerState::Oneshot(left) => {
            assert!(left <= Duration::from_secs(7_200));
            assert!(left > Duration::from_secs(7_199));
        }
        other => panic!("{:?}", other),
    }
}

#[test]
fn arm_periodic_arms_the_descriptor_for_good() {
    let mut timer = Timer::create().unwrap();
    timer.arm_periodic(Span::from_millis(3_600_000), Span::from_nanos(1_500_000_001));
    assert_eq!(
        timer.schedule(),
        Schedule::Periodic {
            first: Span::from_millis(3_600_000),
            period: Span::from_nanos(1_500_000_001),
        }
    );
    match timer.descriptor().get_state() {
        TimerState::Periodic { current, interval } => {
            assert!(current <= Duration::from_secs(3_600));
            assert!(current > Duration::from_secs(3_599));
            assert_eq!(interval, Duration::new(1, 500_000_001));
        }
        other => panic!("{:?}", other),
    }
}

#[test]
fn arming_again_replaces_the_schedule() {
    let mut timer = Timer::create().unwrap();
    timer.arm_periodic(Span::from_millis(500), Span::from_millis(500));
    timer.arm_oneshot(Span::from_nanos(u64::MAX));
    assert_eq!(timer.schedule(), Schedule::Oneshot(Span::from_nanos(u64::MAX)));
    match timer.descriptor().get_state() {
        TimerState::Oneshot(left) => assert!(left > Duration::from_secs(3_600)),
        other => panic!("{:?}", other),
    }
}

#[test]
fn timers_run_out_with_a_create_error() {
    let mut held = Vec::new();
    let mut failure = None;
    for _ in 0..1_100_000 {
        match Delay::new(Moment::from_nanos(0)) {
            Ok(delay) => held.push(delay),
            Err(error) => {
                failure = Some(error);
                break;
            }
        }
    }
    drop(held);
    match failure {
        Some(TimerError::Create(cause)) => assert!(cause.raw_os_error().is_some()),
        other => panic!("{:?}", other),
    }
}
