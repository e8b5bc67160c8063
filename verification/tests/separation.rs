use rust_safety::separation::{
    are_converging, check_separation, minimum_separation_over_time, time_to_minimum_separation,
};
use rust_safety::AircraftState;

const V250: i64 = 69_444;

#[test]
fn test_separation_check() {
    let aircraft1 = AircraftState::new(0, 0, 1_000_000, 0, 25_000, 0, V250);
    let aircraft2 = AircraftState::new(5_000_000, 0, 1_000_000, 18_000, 25_000, 0, -V250);

    let result = check_separation(&aircraft1, &aircraft2, 3_000_000, 100_000);
    assert!(result.is_safe);
}

#[test]
fn test_violation() {
    let aircraft1 = AircraftState::new(0, 0, 1_000_000, 0, 25_000, 0, V250);
    let aircraft2 = AircraftState::new(2_000_000, 0, 1_050_000, 18_000, 25_000, 0, -V250);

    let result = check_separation(&aircraft1, &aircraft2, 3_000_000, 100_000);
    assert!(!result.is_safe);
}

#[test]
fn separation_is_boundary_inclusive() {
    // Horizontal distance exactly at the 3 nm minimum, vertical well
    // under its minimum: still safe.
    let aircraft1 = AircraftState::new(0, 0, 1_000_000, 0, 25_000, 0, V250);
    let aircraft2 = AircraftState::new(3_000_000, 0, 1_000_000, 18_000, 25_000, 0, -V250);

    let result = check_separation(&aircraft1, &aircraft2, 3_000_000, 100_000);
    assert_eq!(result.horizontal_distance, 3_000_000);
    assert!(result.vertical_distance < 100_000);
    assert!(result.is_safe);
}

#[test]
fn separation_reports_both_distances() {
    let aircraft1 = AircraftState::new(0, 0, 1_000_000, 0, 25_000, 0, V250);
    let aircraft2 = AircraftState::new(3_000_000, 4_000_000, 1_050_000, 18_000, 25_000, 0, -V250);

    let result = check_separation(&aircraft1, &aircraft2, 3_000_000, 100_000);
    // A 3-4-5 triangle: exactly 5 nm apart, 500 ft vertically.
    assert_eq!(result.horizontal_distance, 5_000_000);
    assert_eq!(result.vertical_distance, 50_000);
    assert!(result.is_safe);
}

#[test]
fn converging_head_on_pair() {
    let aircraft1 = AircraftState::new(0, 0, 1_000_000, 0, 25_000, 0, V250);
    let aircraft2 = AircraftState::new(0, 5_000_000, 1_000_000, 18_000, 25_000, 0, -V250);
    assert!(are_converging(&aircraft1, &aircraft2));
}

#[test]
fn diverging_pair_is_not_converging() {
    let aircraft1 = AircraftState::new(0, 0, 1_000_000, 18_000, 25_000, 0, -V250);
    let aircraft2 = AircraftState::new(0, 5_000_000, 1_000_000, 0, 25_000, 0, V250);
    assert!(!are_converging(&aircraft1, &aircraft2));
}

#[test]
fn cpa_time_for_head_on_pair() {
    // Closing at 500 kt from 5 nm apart: the closest approach comes
    // almost exactly 36 s ahead, reported in milliseconds.
    let aircraft1 = AircraftState::new(0, 0, 1_000_000, 0, 25_000, 0, V250);
    let aircraft2 = AircraftState::new(0, 5_000_000, 1_000_000, 18_000, 25_000, 0, -V250);
    assert_eq!(time_to_minimum_separation(&aircraft1, &aircraft2), Some(36_000));
}

#[test]
fn no_cpa_for_identical_velocity() {
    // Identical heading and speed decompose to the same velocity
    // components: no relative motion, so no closest approach, whatever
    // the positions.
    let aircraft1 = AircraftState::new(0, 0, 1_000_000, 9_000, 25_000, V250, 0);
    let aircraft2 = AircraftState::new(5_000_000, 3_000_000, 1_050_000, 9_000, 25_000, V250, 0);
    assert_eq!(time_to_minimum_separation(&aircraft1, &aircraft2), None);
}

#[test]
fn no_cpa_when_already_diverging() {
    let aircraft1 = AircraftState::new(0, 0, 1_000_000, 18_000, 25_000, 0, -V250);
    let aircraft2 = AircraftState::new(0, 5_000_000, 1_000_000, 0, 25_000, 0, V250);
    assert_eq!(time_to_minimum_separation(&aircraft1, &aircraft2), None);
}

#[test]
fn sampled_minimum_matches_closest_sample() {
    let aircraft1 = AircraftState::new(0, 0, 1_000_000, 0, 25_000, 0, V250);
    let aircraft2 = AircraftState::new(0, 5_000_000, 1_000_000, 18_000, 25_000, 0, -V250);
    // The closest whole-second sample (36 s) leaves 32 micro-nm.
    assert_eq!(minimum_separation_over_time(&aircraft1, &aircraft2, 300), 32);
}

#[test]
fn sampling_window_ends_at_the_duration() {
    // Over one second the pair closes from 5 nm to 4.861112 nm; the
    // sample two seconds out is not part of a one-second window.
    let aircraft1 = AircraftState::new(0, 0, 1_000_000, 0, 25_000, 0, V250);
    let aircraft2 = AircraftState::new(0, 5_000_000, 1_000_000, 18_000, 25_000, 0, -V250);
    assert_eq!(minimum_separation_over_time(&aircraft1, &aircraft2, 1), 4_861_112);
    assert_eq!(minimum_separation_over_time(&aircraft1, &aircraft2, 0), 5_000_000);
}

#[test]
fn sampled_minimum_never_undercuts_analytic_minimum() {
    // The discretized sampling is an upper bound on the true minimum:
    // with relative speed squared C, relative position dot relative
    // velocity B and starting squared distance A, the true minimum
    // squared distance is (C*A - B^2)/C, and C * sampled^2 >= C*A - B^2.
    let aircraft1 = AircraftState::new(0, 0, 1_000_000, 0, 25_000, 0, V250);
    let aircraft2 = AircraftState::new(0, 5_000_000, 1_000_000, 18_000, 25_000, 0, -V250);

    let sampled = minimum_separation_over_time(&aircraft1, &aircraft2, 300) as i128;
    let c: i128 = (2 * V250 as i128) * (2 * V250 as i128);
    let b: i128 = 5_000_000 * (-2 * V250 as i128);
    let a: i128 = 5_000_000 * 5_000_000;
    assert!(c * (sampled * sampled) >= c * a - b * b);
}
