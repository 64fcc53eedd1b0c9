//! Unit tests for the clamp, parameter resolver and linear ramp primitives.

use ahdsr::params::{clamp, get_parameter, MAX_STAGE_TIME_MICROS, UNIT_VALUE};
use ahdsr::ramp::linear_interp;

#[test]
fn clamp_passes_in_range_values() {
    assert_eq!(clamp(0, UNIT_VALUE, 250_000), 250_000);
    assert_eq!(clamp(0, UNIT_VALUE, 0), 0);
    assert_eq!(clamp(0, UNIT_VALUE, UNIT_VALUE), UNIT_VALUE);
}

#[test]
fn clamp_clips_out_of_range_values() {
    assert_eq!(clamp(0, UNIT_VALUE, -5), 0);
    assert_eq!(clamp(0, UNIT_VALUE, UNIT_VALUE + 1), UNIT_VALUE);
    assert_eq!(clamp(0, MAX_STAGE_TIME_MICROS, -1_000_000_000), 0);
}

#[test]
fn clamp_lower_bound_wins_on_reversed_range() {
    assert_eq!(clamp(10, 5, 1), 10);
    assert_eq!(clamp(10, 5, 7), 10);
    assert_eq!(clamp(10, 5, 12), 5);
}

#[test]
fn resolver_broadcasts_a_single_scalar() {
    let param = vec![300_000i64];
    for index in 0..8 {
        assert_eq!(get_parameter(&param, 0, UNIT_VALUE, index), 300_000);
    }
}

#[test]
fn resolver_indexes_a_per_sample_array() {
    let param = vec![0i64, 100, 200, 300];
    assert_eq!(get_parameter(&param, 0, UNIT_VALUE, 0), 0);
    assert_eq!(get_parameter(&param, 0, UNIT_VALUE, 2), 200);
    assert_eq!(get_parameter(&param, 0, UNIT_VALUE, 3), 300);
}

#[test]
fn resolver_reads_an_empty_array_as_zero() {
    let param: Vec<i64> = Vec::new();
    for index in 0..8 {
        assert_eq!(get_parameter(&param, 0, UNIT_VALUE, index), 0);
    }
}

#[test]
fn resolver_clamps_what_it_resolves() {
    let param = vec![-7i64];
    assert_eq!(get_parameter(&param, 0, UNIT_VALUE, 3), 0);
    let wild = vec![5i64, 2_000_000, -9];
    assert_eq!(get_parameter(&wild, 0, UNIT_VALUE, 1), UNIT_VALUE);
    assert_eq!(get_parameter(&wild, 0, UNIT_VALUE, 2), 0);
}

#[test]
fn ramp_returns_endpoints_exactly() {
    // Continuity at both ends of a proper ramp: the start time yields the
    // start value and the end time the end value, exactly.
    assert_eq!(linear_interp(200_000, 1_000, 900_000, 5_000, 1_000), 200_000);
    assert_eq!(linear_interp(200_000, 1_000, 900_000, 5_000, 5_000), 900_000);
    assert_eq!(linear_interp(900_000, 0, 100_000, 4_000, 0), 900_000);
    assert_eq!(linear_interp(900_000, 0, 100_000, 4_000, 4_000), 100_000);
}

#[test]
fn ramp_replay_is_idempotent() {
    let first = linear_interp(0, 0, UNIT_VALUE, 10_000, 2_500);
    let second = linear_interp(0, 0, UNIT_VALUE, 10_000, 2_500);
    assert_eq!(first, second);
    assert_eq!(first, 250_000);
}

#[test]
fn ramp_interpolates_linearly() {
    // 0 -> 1.0 over 10 ms, queried at 1 ms steps.
    for step in 0..=10i64 {
        assert_eq!(
            linear_interp(0, 0, UNIT_VALUE, 10_000, step * 1_000),
            step * 100_000
        );
    }
    // A falling ramp: 0.8 -> 0.2 over 6 ms, queried halfway.
    assert_eq!(linear_interp(800_000, 0, 200_000, 6_000, 3_000), 500_000);
}

#[test]
fn ramp_clips_outside_its_span() {
    assert_eq!(linear_interp(300_000, 2_000, 700_000, 8_000, 0), 300_000);
    assert_eq!(linear_interp(300_000, 2_000, 700_000, 8_000, 9_000), 700_000);
}

#[test]
fn degenerate_ramp_collapses_to_a_step() {
    // start_time >= end_time: the ramp is a step at end_time.
    assert_eq!(linear_interp(300_000, 10_000, 800_000, 10_000, 9_999), 300_000);
    assert_eq!(linear_interp(300_000, 10_000, 800_000, 10_000, 10_000), 300_000);
    assert_eq!(linear_interp(300_000, 10_000, 800_000, 10_000, 10_001), 800_000);
    assert_eq!(linear_interp(300_000, 20_000, 800_000, 10_000, 15_000), 800_000);
}
