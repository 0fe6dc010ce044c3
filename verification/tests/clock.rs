use anland::clock::{
    duration_from_timespec, get_monotonic_time, AdjustableClock, LazyClock, MAX_STEP_NANOS,
};
use anland::time::Duration;

fn to_std(d: Duration) -> std::time::Duration {
    std::time::Duration::new(d.as_secs(), d.subsec_nanos())
}

fn from_std(d: std::time::Duration) -> Duration {
    Duration::new(d.as_secs(), d.subsec_nanos())
}

/// The scaling a clock running at `rate` applies to each step.
fn at_rate(rate: f64) -> impl Fn(Duration) -> Duration + Copy {
    move |d| from_std(to_std(d).mul_f64(rate))
}

fn unit(d: Duration) -> Duration {
    d
}

fn clock_at(time: Duration) -> AdjustableClock {
    AdjustableClock::new(LazyClock::with_time(time))
}

#[test]
fn frozen_clock() {
    let mut clock = clock_at(Duration::zero());
    let rate = at_rate(1.0);
    assert_eq!(clock.now(rate), Duration::zero());

    // Steps within MAX_STEP (16.67ms) advance 1:1
    clock.set_unadjusted(Duration::from_millis(10));
    assert_eq!(clock.now(rate), Duration::from_millis(10));

    clock.set_unadjusted(Duration::from_millis(25));
    assert_eq!(clock.now(rate), Duration::from_millis(25));
}

#[test]
fn rate_change() {
    let mut clock = clock_at(Duration::zero());
    let half = at_rate(0.5);

    // Step 10ms at rate 0.5 -> 5ms
    clock.set_unadjusted(Duration::from_millis(10));
    assert_eq!(clock.now_unadjusted(), Duration::from_millis(10));
    assert_eq!(clock.now(half), Duration::from_millis(5));

    // Step 10ms more (20ms total) at rate 0.5 -> +5ms = 10ms
    clock.set_unadjusted(Duration::from_millis(20));
    assert_eq!(clock.now_unadjusted(), Duration::from_millis(20));
    assert_eq!(clock.now(half), Duration::from_millis(10));

    // Step 10ms backwards (10ms total) at rate 0.5 -> -5ms = 5ms
    clock.set_unadjusted(Duration::from_millis(10));
    assert_eq!(clock.now_unadjusted(), Duration::from_millis(10));
    assert_eq!(clock.now(half), Duration::from_millis(5));

    let double = at_rate(2.0);

    // Step 10ms forwards (20ms total) at rate 2.0 -> +20ms = 25ms
    clock.set_unadjusted(Duration::from_millis(20));
    assert_eq!(clock.now_unadjusted(), Duration::from_millis(20));
    assert_eq!(clock.now(double), Duration::from_millis(25));
}

#[test]
fn step_cap_limits_large_jumps() {
    let mut clock = clock_at(Duration::zero());
    // Jump by 100ms: should be capped to 16.666667ms
    clock.set_unadjusted(Duration::from_millis(100));
    assert_eq!(clock.now(at_rate(1.0)), Duration::from_nanos(16_666_667));
}

#[test]
fn step_cap_limits_large_backward_jumps() {
    let mut clock = clock_at(Duration::from_secs(1));
    clock.set_unadjusted(Duration::from_millis(500));
    assert_eq!(
        clock.now(unit),
        Duration::from_nanos(1_000_000_000 - MAX_STEP_NANOS)
    );
    // The virtual time now lags behind; the next large jump forward moves
    // it by one frame again.
    clock.set_unadjusted(Duration::from_secs(2));
    assert_eq!(clock.now(unit), Duration::from_secs(1));
}

#[test]
fn backward_steps_saturate_at_zero() {
    let mut clock = clock_at(Duration::from_millis(10));
    clock.set_unadjusted(Duration::from_millis(5));
    assert_eq!(clock.now(at_rate(10.0)), Duration::zero());
}

#[test]
fn forward_steps_saturate_at_the_largest_duration() {
    let mut clock = clock_at(Duration::zero());
    clock.set_unadjusted(Duration::from_millis(1));
    let to_max = |_d: Duration| Duration::max_value();
    assert_eq!(clock.now(to_max), Duration::max_value());
    clock.set_unadjusted(Duration::from_millis(2));
    assert_eq!(clock.now(unit), Duration::max_value());
}

#[test]
fn repeated_reads_agree() {
    let mut clock = clock_at(Duration::from_millis(3));
    clock.set_unadjusted(Duration::from_millis(7));
    let first = clock.now(at_rate(0.5));
    let second = clock.now(at_rate(100.0));
    assert_eq!(first, Duration::from_millis(5));
    assert_eq!(second, first);
}

#[test]
fn rate_zero_freezes_virtual_time() {
    let mut clock = clock_at(Duration::from_millis(40));
    clock.set_unadjusted(Duration::from_millis(50));
    assert_eq!(clock.now(at_rate(0.0)), Duration::from_millis(40));
    assert_eq!(clock.now_unadjusted(), Duration::from_millis(50));
}

#[test]
fn complete_instantly_flag() {
    let mut clock = clock_at(Duration::zero());
    assert!(!clock.should_complete_instantly());
    clock.set_complete_instantly(true);
    assert!(clock.should_complete_instantly());
    clock.set_complete_instantly(false);
    assert!(!clock.should_complete_instantly());
}

#[test]
fn clear_fetches_the_monotonic_time_again() {
    let mut clock = clock_at(Duration::zero());
    clock.clear();
    let fetched = clock.now_unadjusted();
    assert!(fetched.as_nanos() > 0);
    assert_eq!(clock.now_unadjusted(), fetched);
}

#[test]
fn lazy_clock_with_time_reads_it() {
    let mut clock = LazyClock::with_time(Duration::from_millis(42));
    assert_eq!(clock.now(), Duration::from_millis(42));
    assert_eq!(clock.now(), Duration::from_millis(42));
}

#[test]
fn lazy_clock_set_then_read() {
    let mut clock = LazyClock::with_time(Duration::from_millis(1));
    clock.set(Duration::from_secs(9));
    assert_eq!(clock.now(), Duration::from_secs(9));
}

#[test]
fn lazy_clock_retains_fetched_time() {
    let mut clock = LazyClock::default();
    let first = clock.now();
    while !first.is_shorter_than(&get_monotonic_time()) {}
    assert_eq!(clock.now(), first);
    clock.clear();
    let refetched = clock.now();
    assert!(first.is_shorter_than(&refetched));
}

#[test]
fn monotonic_time_does_not_go_back() {
    let first = get_monotonic_time();
    let second = get_monotonic_time();
    assert!(to_std(second) >= to_std(first));
    assert!(first.as_nanos() > 0);
}

#[test]
fn default_clock_starts_synchronised() {
    let mut clock = AdjustableClock::default();
    let unadjusted = clock.now_unadjusted();
    assert_eq!(clock.now(unit), unadjusted);
}

#[test]
fn timespec_to_duration() {
    assert_eq!(duration_from_timespec(3, 250), Duration::new(3, 250));
    assert_eq!(duration_from_timespec(0, 999_999_999).as_nanos(), 999_999_999);
    assert_eq!(duration_from_timespec(-1, 0).as_secs(), u64::MAX);
}
