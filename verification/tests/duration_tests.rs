use slow_scan_print::duration::{duration_of_nanos, total_nanos, MAX_NANOS, NANOS_PER_SEC};
use std::time::Duration;

#[test]
fn total_nanos_counts_seconds_and_fraction() {
    assert_eq!(total_nanos(Duration::new(1, 5)), 1_000_000_005);
    assert_eq!(total_nanos(Duration::ZERO), 0);
    assert_eq!(total_nanos(Duration::from_millis(20)), 20_000_000);
}

#[test]
fn total_nanos_agrees_with_std() {
    for d in [
        Duration::new(0, 1),
        Duration::new(7, 999_999_999),
        Duration::new(u64::MAX, 0),
        Duration::MAX,
    ] {
        assert_eq!(total_nanos(d), d.as_nanos());
    }
}

#[test]
fn duration_of_nanos_splits_seconds_and_fraction() {
    assert_eq!(duration_of_nanos(1_500_000_000), Duration::new(1, 500_000_000));
    assert_eq!(duration_of_nanos(0), Duration::ZERO);
    assert_eq!(duration_of_nanos(999_999_999), Duration::new(0, 999_999_999));
}

#[test]
fn longest_duration_round_trips() {
    assert_eq!(duration_of_nanos(MAX_NANOS), Duration::MAX);
    assert_eq!(total_nanos(Duration::MAX), MAX_NANOS);
}

#[test]
fn nanos_per_sec_is_a_billion() {
    assert_eq!(NANOS_PER_SEC, 1_000_000_000);
    assert_eq!(total_nanos(Duration::from_secs(1)), NANOS_PER_SEC as u128);
}
