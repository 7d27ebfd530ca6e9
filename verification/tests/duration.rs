use async_time_mock::duration::{from_nanos, is_zero, to_nanos, MAX_NANOS, NANOS_PER_SEC};
use std::time::Duration;

#[test]
fn to_nanos_counts_seconds_and_fraction() {
    assert_eq!(to_nanos(Duration::new(3, 250)), 3_000_000_250);
    assert_eq!(to_nanos(Duration::from_millis(500)), 500_000_000);
    assert_eq!(to_nanos(Duration::ZERO), 0);
}

#[test]
fn to_nanos_of_the_longest_duration_is_the_maximum() {
    assert_eq!(to_nanos(Duration::MAX), MAX_NANOS);
    assert_eq!(MAX_NANOS, u64::MAX as u128 * NANOS_PER_SEC + 999_999_999);
}

#[test]
fn from_nanos_splits_into_seconds_and_fraction() {
    assert_eq!(from_nanos(3_000_000_250), Duration::new(3, 250));
    assert_eq!(from_nanos(999_999_999), Duration::new(0, 999_999_999));
    assert_eq!(from_nanos(1_000_000_000), Duration::from_secs(1));
    assert_eq!(from_nanos(0), Duration::ZERO);
    assert_eq!(from_nanos(MAX_NANOS), Duration::MAX);
}

#[test]
fn from_nanos_undoes_to_nanos() {
    for duration in [
        Duration::ZERO,
        Duration::from_nanos(1),
        Duration::from_secs(1337),
        Duration::new(42, 999_999_999),
        Duration::MAX,
    ] {
        assert_eq!(from_nanos(to_nanos(duration)), duration);
    }
}

#[test]
fn only_the_empty_duration_is_zero() {
    assert!(is_zero(Duration::ZERO));
    assert!(!is_zero(Duration::from_nanos(1)));
    assert!(!is_zero(Duration::from_secs(1)));
}
