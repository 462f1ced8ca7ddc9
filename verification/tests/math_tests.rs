//! Tests for the time-bucketing conversions.

use snapshots::{
    calculate_era_and_period_of_ts, calculate_era_start_ts, calculate_next_era_and_period,
    calculate_next_era_and_period_of_ts, calculate_period_start_ts, has_period_elapsed,
    COMMON_ERA_UNIX_TS, PERIOD_SECONDS, SECONDS_PER_ERA,
};

#[test]
fn test_has_period_elapsed() {
    // beginning of period 2: so period 2 has not elapsed yet.
    let current_time = (COMMON_ERA_UNIX_TS + (PERIOD_SECONDS as u64) * 2) as i64;

    assert!(has_period_elapsed(0, 0, current_time).unwrap());
    assert!(has_period_elapsed(0, 1, current_time).unwrap());
    assert!(!has_period_elapsed(0, 2, current_time).unwrap());

    assert!(!has_period_elapsed(1, 0, current_time).unwrap());
}

#[test]
fn test_has_period_elapsed_boundary() {
    // beginning of period 2: so period 2 has not elapsed yet.
    let current_time = (COMMON_ERA_UNIX_TS + (PERIOD_SECONDS as u64) * 2 + 1) as i64;

    assert!(has_period_elapsed(0, 0, current_time).unwrap());
    assert!(has_period_elapsed(0, 1, current_time).unwrap());
    assert!(has_period_elapsed(0, 2, current_time).unwrap());
    assert!(!has_period_elapsed(0, 3, current_time).unwrap());

    assert!(!has_period_elapsed(1, 0, current_time).unwrap());
}

#[test]
fn test_calculate_next_era_and_period_normal() {
    let era = 2_u16;
    let period = 4_u8;
    let start = calculate_period_start_ts(era, period).unwrap() + 40;

    let (result_era, result_period) = calculate_era_and_period_of_ts(start).unwrap();
    assert_eq!(result_era, era);
    assert_eq!(result_period, period);

    let (result_next_era, result_next_period) =
        calculate_next_era_and_period_of_ts(start).unwrap();
    assert_eq!(result_next_era, era);
    assert_eq!(result_next_period, period + 1);
}

#[test]
fn test_calculate_next_era_and_period_boundary() {
    let era = 2_u16;
    let period = 255_u8;
    let start = calculate_period_start_ts(era, period).unwrap() + 40;

    let (result_era, result_period) = calculate_era_and_period_of_ts(start).unwrap();
    assert_eq!(result_era, era);
    assert_eq!(result_period, period);

    let (result_next_era, result_next_period) =
        calculate_next_era_and_period_of_ts(start).unwrap();
    assert_eq!(result_next_era, era + 1);
    assert_eq!(result_next_period, 0_u8);
}

#[test]
fn test_era_start_values() {
    assert_eq!(calculate_era_start_ts(0), Some(COMMON_ERA_UNIX_TS));
    assert_eq!(calculate_era_start_ts(1), Some(COMMON_ERA_UNIX_TS + SECONDS_PER_ERA));
    assert_eq!(
        calculate_era_start_ts(u16::MAX),
        Some(COMMON_ERA_UNIX_TS + 65535 * SECONDS_PER_ERA)
    );
}

#[test]
fn test_period_start_formula() {
    // The period checkpoint is the era start plus a whole number of periods,
    // and grows with the coordinate.
    for &(era, period) in &[(0u16, 0u8), (0, 1), (3, 200), (u16::MAX, u8::MAX)] {
        assert_eq!(
            calculate_period_start_ts(era, period).unwrap(),
            calculate_era_start_ts(era).unwrap() + (period as u64) * (PERIOD_SECONDS as u64)
        );
    }
    let mut prev = calculate_period_start_ts(0, 0).unwrap();
    for &(era, period) in &[(0u16, 1u8), (0, 255), (1, 0), (1, 1), (2, 0)] {
        let next = calculate_period_start_ts(era, period).unwrap();
        assert!(next > prev);
        prev = next;
    }
}

#[test]
fn test_coords_round_trip() {
    for &(era, period) in &[(0u16, 0u8), (0, 255), (7, 13), (u16::MAX, 0), (u16::MAX, 255)] {
        let start = calculate_period_start_ts(era, period).unwrap();
        assert_eq!(calculate_era_and_period_of_ts(start), Some((era, period)));
    }
}

#[test]
fn test_coords_of_ts_out_of_range() {
    // Before the common era there is no coordinate.
    assert_eq!(calculate_era_and_period_of_ts(0), None);
    assert_eq!(calculate_era_and_period_of_ts(COMMON_ERA_UNIX_TS - 1), None);
    // Past the last representable era the 16-bit coordinate overflows.
    let past_last = COMMON_ERA_UNIX_TS + 65536 * SECONDS_PER_ERA;
    assert_eq!(calculate_era_and_period_of_ts(past_last), None);
}

#[test]
fn test_next_era_and_period_direct() {
    assert_eq!(calculate_next_era_and_period(5, 4), Some((5, 5)));
    assert_eq!(calculate_next_era_and_period(5, 254), Some((5, 255)));
    assert_eq!(calculate_next_era_and_period(5, 255), Some((6, 0)));
    assert_eq!(calculate_next_era_and_period(u16::MAX, 254), Some((u16::MAX, 255)));
    assert_eq!(calculate_next_era_and_period(u16::MAX, 255), None);
}

#[test]
fn test_has_period_elapsed_negative_now() {
    assert_eq!(has_period_elapsed(0, 0, -1), None);
}
