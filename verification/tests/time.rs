use std::time::{Duration, Instant};
use timerfd_poll::policy::{first_expiry, remaining};
use timerfd_poll::{Clock, Moment, Progress, Span};

#[test]
fn span_constructors_count_nanoseconds() {
    assert_eq!(Span::from_nanos(17).as_nanos(), 17);
    assert_eq!(Span::from_micros(10).as_nanos(), 10_000);
    assert_eq!(Span::from_millis(500).as_nanos(), 500_000_000);
    assert_eq!(Span::from_micros(0), Span::from_nanos(0));
}

#[test]
fn span_constructors_cut_off_at_the_maximum() {
    assert_eq!(Span::from_micros(u64::MAX).as_nanos(), u64::MAX);
    assert_eq!(Span::from_millis(u64::MAX).as_nanos(), u64::MAX);
    assert_eq!(Span::from_micros(u64::MAX / 1_000).as_nanos(), u64::MAX / 1_000 * 1_000);
    assert_eq!(Span::from_micros(u64::MAX / 1_000 + 1).as_nanos(), u64::MAX);
    assert_eq!(Span::saturating_from_nanos(u128::MAX).as_nanos(), u64::MAX);
    assert_eq!(Span::saturating_from_nanos(u64::MAX as u128 + 1).as_nanos(), u64::MAX);
    assert_eq!(Span::saturating_from_nanos(u64::MAX as u128).as_nanos(), u64::MAX);
    assert_eq!(Span::saturating_from_nanos(42).as_nanos(), 42);
}

#[test]
fn span_is_zero_only_when_empty() {
    assert!(Span::from_nanos(0).is_zero());
    assert!(!Span::from_nanos(1).is_zero());
}

#[test]
fn moment_constructors_count_nanoseconds() {
    assert_eq!(Moment::from_nanos(5).as_nanos(), 5);
    assert_eq!(Moment::saturating_from_nanos(5).as_nanos(), 5);
    assert_eq!(Moment::saturating_from_nanos(u128::MAX).as_nanos(), u64::MAX);
}

#[test]
fn moment_checked_add_stops_at_the_maximum() {
    let base = Moment::from_nanos(u64::MAX - 10);
    assert_eq!(base.checked_add(Span::from_nanos(10)), Some(Moment::from_nanos(u64::MAX)));
    assert_eq!(base.checked_add(Span::from_nanos(11)), None);
    assert_eq!(Moment::from_nanos(3).checked_add(Span::from_nanos(4)), Some(Moment::from_nanos(7)));
}

#[test]
fn moment_is_reached_at_itself_and_later() {
    let moment = Moment::from_nanos(100);
    assert!(moment.is_reached_at(Moment::from_nanos(100)));
    assert!(moment.is_reached_at(Moment::from_nanos(101)));
    assert!(!moment.is_reached_at(Moment::from_nanos(99)));
}

#[test]
fn remaining_is_the_distance_to_a_deadline_ahead() {
    assert_eq!(remaining(Moment::from_nanos(100), Moment::from_nanos(40)), Some(Span::from_nanos(60)));
    assert_eq!(remaining(Moment::from_nanos(41), Moment::from_nanos(40)), Some(Span::from_nanos(1)));
    assert_eq!(remaining(Moment::from_nanos(40), Moment::from_nanos(40)), None);
    assert_eq!(remaining(Moment::from_nanos(39), Moment::from_nanos(40)), None);
    assert_eq!(
        remaining(Moment::from_nanos(u64::MAX), Moment::from_nanos(0)),
        Some(Span::from_nanos(u64::MAX))
    );
}

#[test]
fn first_expiry_is_the_distance_to_an_anchor_ahead() {
    let period = Span::from_nanos(30);
    assert_eq!(first_expiry(Moment::from_nanos(100), Moment::from_nanos(40), period), Span::from_nanos(60));
    assert_eq!(first_expiry(Moment::from_nanos(100), Moment::from_nanos(99), period), Span::from_nanos(1));
}

#[test]
fn first_expiry_is_the_period_once_the_anchor_is_reached() {
    let period = Span::from_nanos(30);
    assert_eq!(first_expiry(Moment::from_nanos(100), Moment::from_nanos(100), period), period);
    assert_eq!(first_expiry(Moment::from_nanos(100), Moment::from_nanos(500), period), period);
    assert_eq!(first_expiry(Moment::from_nanos(0), Moment::from_nanos(0), Span::from_nanos(0)), Span::from_nanos(0));
}

#[test]
fn clock_readings_do_not_go_back() {
    let clock = Clock::start();
    let mut last = clock.now();
    for _ in 0..1_000 {
        let next = clock.now();
        assert!(last.as_nanos() <= next.as_nanos());
        last = next;
    }
}

#[test]
fn clock_counts_nanoseconds_since_it_started() {
    let before = Instant::now();
    let clock = Clock::start();
    while before.elapsed() < Duration::from_millis(3) {
        std::hint::spin_loop();
    }
    let reading = clock.now();
    let outer = before.elapsed();
    assert!(reading.as_nanos() >= 2_000_000);
    assert!(reading.as_nanos() as u128 <= outer.as_nanos());
}

#[test]
fn clock_places_instants_on_its_own_scale() {
    let earlier = Instant::now();
    let clock = Clock::start();
    assert_eq!(clock.moment_of(&earlier), Moment::from_nanos(0));
    let later = Instant::now() + Duration::from_secs(3);
    let placed = clock.moment_of(&later);
    assert!(placed.as_nanos() >= 3_000_000_000);
    assert!(placed.as_nanos() < 4_000_000_000);
}

#[test]
fn progress_is_ready_only_when_ready() {
    assert!(Progress::Ready.is_ready());
    assert!(!Progress::Pending.is_ready());
}
