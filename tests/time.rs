use mycelium_sync::time::{
    dur_to_ticks, max_duration, ticks_to_dur, Clock, Duration, Instant, TimerError,
};

fn ten() -> u64 {
    10
}

#[test]
fn clock_now_multiplies_ticks() {
    let clock = Clock::new(Duration::from_millis(1), ten).named("test");
    assert_eq!(clock.now_ticks(), 10);
    assert_eq!(clock.now().elapsed(), Duration::from_millis(10));
    assert_eq!(clock.tick_duration(), Duration::from_millis(1));
}

#[test]
fn clock_now_saturates() {
    let clock = Clock::new(Duration::from_secs(2), || u64::MAX);
    assert_eq!(clock.now().elapsed(), Duration::max_value());
    assert_eq!(clock.max_duration(), Duration::max_value());
}

#[test]
fn clock_is_monotonic() {
    let counter = std::cell::Cell::new(0u64);
    let clock = Clock::new(Duration::from_nanos(3), || {
        counter.set(counter.get() + 5);
        counter.get()
    });
    let a = clock.now();
    let b = clock.now();
    assert!(a <= b);
    assert_eq!(b.duration_since(a), Duration::from_nanos(15));
}

#[test]
fn ticks_to_dur_exact() {
    assert_eq!(ticks_to_dur(Duration::from_nanos(250), 4), Duration::from_nanos(1000));
    assert_eq!(ticks_to_dur(Duration::from_secs(1), 0), Duration::zero());
    assert_eq!(
        max_duration(Duration::from_nanos(1)),
        Duration::from_nanos(u64::MAX)
    );
}

#[test]
fn dur_to_ticks_rounds_down() {
    assert_eq!(dur_to_ticks(Duration::from_millis(1), Duration::from_nanos(2_500_000)), Ok(2));
}

#[test]
fn dur_to_ticks_too_long() {
    let tick = Duration::from_nanos(1);
    let long = Duration::from_secs(u64::MAX);
    assert_eq!(
        dur_to_ticks(tick, long),
        Err(TimerError::DurationTooLong { requested: long, max: Duration::from_nanos(u64::MAX) })
    );
}

#[test]
fn instant_round_trip() {
    let t = Instant::at_ticks(Duration::from_secs(1), 5);
    let d = Duration::from_millis(1500);
    let sum = t.checked_add(d).unwrap();
    assert_eq!(sum.duration_since(t), d);
    assert_eq!(sum.checked_sub(d), Some(t));
}

#[test]
fn instant_overflow_is_none() {
    let t = Instant::at_ticks(Duration::max_value(), 1);
    assert_eq!(t.checked_add(Duration::from_nanos(1)), None);
    assert_eq!(Instant::at_ticks(Duration::from_secs(1), 1).checked_sub(Duration::from_secs(2)), None);
}

#[test]
fn duration_since_later_is_zero() {
    let early = Instant::at_ticks(Duration::from_secs(1), 1);
    let late = Instant::at_ticks(Duration::from_secs(1), 3);
    assert_eq!(early.duration_since(late), Duration::zero());
    assert_eq!(early.checked_duration_since(late), None);
    assert_eq!(late.checked_duration_since(early), Some(Duration::from_secs(2)));
}

#[test]
fn try_now_without_global_timer() {
    let none: Option<&Clock<fn() -> u64>> = None;
    assert_eq!(Instant::try_now(none), Err(TimerError::NoGlobalTimer));
    let clock = Clock::new(Duration::from_nanos(1), ten as fn() -> u64);
    assert_eq!(Instant::try_now(Some(&clock)).unwrap().elapsed(), Duration::from_nanos(10));
    assert_eq!(Instant::now(&clock).elapsed(), Duration::from_nanos(10));
}

#[test]
fn duration_parts() {
    let d = Duration::new(3, 250_000_000);
    assert_eq!(d.as_secs(), 3);
    assert_eq!(d.subsec_nanos(), 250_000_000);
    assert_eq!(d.as_millis(), 3250);
    assert_eq!(d.as_nanos(), 3_250_000_000);
    assert_eq!(Duration::max_value().checked_add(Duration::from_nanos(1)), None);
}

#[test]
fn instant_sub_then_add_round_trip() {
    let t = Instant::at_ticks(Duration::from_millis(1), 2500);
    let d = Duration::from_millis(700);
    let u = t.checked_sub(d).unwrap();
    assert_eq!(u.elapsed(), Duration::from_millis(1800));
    assert_eq!(u.checked_add(d), Some(t));
}
