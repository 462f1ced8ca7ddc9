//! Tests for the decay model.

use snapshots::calculate_voter_power_simple;

#[test]
fn test_power_linear_decay_scenario() {
    // amount = 1000, multiplier = 1, max duration = 1000 seconds,
    // lockup runs from 5000 to 6000.
    let power_if_max = 1000u64;
    let started_at = 5000u64;
    let ends_at = 6000u64;
    let max_dur = 1000u64;

    let power = |t: u64| calculate_voter_power_simple(power_if_max, t, started_at, ends_at, max_dur);

    assert_eq!(power(started_at), Some(1000));
    assert_eq!(power(started_at + 500), Some(500));
    assert_eq!(power(started_at + 999), Some(1));
    assert_eq!(power(ends_at), Some(0));
}

#[test]
fn test_power_zero_outside_window() {
    let power = |t: u64| calculate_voter_power_simple(1000, t, 5000, 6000, 1000);
    // Before the lockup starts and at or after its expiry there is no power.
    assert_eq!(power(4999), Some(0));
    assert_eq!(power(6000), Some(0));
    assert_eq!(power(7000), Some(0));
}

#[test]
fn test_power_monotone_non_increasing() {
    let power = |t: u64| {
        calculate_voter_power_simple(1000, t, 5000, 6000, 1000).unwrap()
    };
    let mut last = power(5000);
    for t in 5001..6000u64 {
        let cur = power(t);
        assert!(cur <= last);
        last = cur;
    }
    assert!(last >= 1);
}

#[test]
fn test_power_clamped_by_max_duration() {
    // More than max_stake_duration left: power stays at the maximum.
    assert_eq!(calculate_voter_power_simple(1000, 5000, 4000, 100_000, 1000), Some(1000));
    assert_eq!(calculate_voter_power_simple(1000, 98_000, 4000, 100_000, 1000), Some(1000));
    // Inside the final stretch it decays.
    assert_eq!(calculate_voter_power_simple(1000, 99_500, 4000, 100_000, 1000), Some(500));
}

#[test]
fn test_power_invalid_inputs() {
    // A zero checkpoint is out of domain.
    assert_eq!(calculate_voter_power_simple(1000, 0, 5000, 6000, 1000), None);
    // A never-started lockup has no power anywhere.
    assert_eq!(calculate_voter_power_simple(1000, 5500, 0, 6000, 1000), Some(0));
    // A zero maximum duration cannot be divided by.
    assert_eq!(calculate_voter_power_simple(1000, 5500, 5000, 6000, 0), None);
}

#[test]
fn test_power_large_values_use_wide_intermediate() {
    // amount * remaining would overflow 64 bits before the divide; the wide
    // intermediate keeps the result exact.
    let power_if_max = u64::MAX / 2;
    let started_at = 1u64;
    let ends_at = 2_000_000_001u64;
    let max_dur = 2_000_000_000u64;
    let half_way = 1_000_000_001u64;
    assert_eq!(
        calculate_voter_power_simple(power_if_max, half_way, started_at, ends_at, max_dur),
        Some(power_if_max / 2)
    );
}
