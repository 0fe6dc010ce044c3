use anland::time::{Duration, MAX_TOTAL_NANOS, NANOS_PER_MILLI, NANOS_PER_SEC};

#[test]
fn constructors_count_nanoseconds() {
    assert_eq!(Duration::zero().as_nanos(), 0);
    assert_eq!(Duration::from_nanos(16_666_667).as_nanos(), 16_666_667);
    assert_eq!(Duration::from_millis(25).as_nanos(), 25 * NANOS_PER_MILLI as u128);
    assert_eq!(Duration::from_secs(3).as_nanos(), 3 * NANOS_PER_SEC as u128);
    assert_eq!(Duration::new(2, 5).as_nanos(), 2_000_000_005);
    assert_eq!(Duration::max_value().as_nanos(), MAX_TOTAL_NANOS);
}

#[test]
fn new_carries_nanoseconds_into_seconds() {
    let d = Duration::new(1, 2_500_000_000);
    assert_eq!(d.as_secs(), 3);
    assert_eq!(d.subsec_nanos(), 500_000_000);
    assert_eq!(d, Duration::from_millis(3_500));
}

#[test]
fn seconds_and_subsecond_nanoseconds() {
    let d = Duration::from_nanos(16_666_667);
    assert_eq!(d.as_secs(), 0);
    assert_eq!(d.subsec_nanos(), 16_666_667);
    let max = Duration::max_value();
    assert_eq!(max.as_secs(), u64::MAX);
    assert_eq!(max.subsec_nanos(), 999_999_999);
}

#[test]
fn comparisons() {
    let a = Duration::from_millis(10);
    let b = Duration::from_millis(25);
    assert!(a.is_shorter_than(&b));
    assert!(!b.is_shorter_than(&a));
    assert!(!a.is_shorter_than(&a));
    assert!(a.same_as(&Duration::from_nanos(10_000_000)));
    assert!(!a.same_as(&b));
    assert_eq!(a.min(b), a);
    assert_eq!(b.min(a), a);
}

#[test]
fn subtraction() {
    let a = Duration::from_millis(25);
    let b = Duration::from_millis(10);
    assert_eq!(a.sub(b), Duration::from_millis(15));
    assert_eq!(a.saturating_sub(b), Duration::from_millis(15));
    assert_eq!(b.saturating_sub(a), Duration::zero());
}

#[test]
fn addition_saturates() {
    let a = Duration::from_millis(25);
    assert_eq!(a.saturating_add(a), Duration::from_millis(50));
    assert_eq!(Duration::max_value().saturating_add(a), Duration::max_value());
    assert_eq!(
        Duration::new(u64::MAX, 999_999_000).saturating_add(Duration::from_nanos(999)),
        Duration::max_value()
    );
}
