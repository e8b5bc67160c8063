use rust_safety::conflict::{avoidance_heading_from_bearing, is_resolution_effective};
use rust_safety::trajectory::predict_position;
use rust_safety::{
    calculate_horizontal_distance, calculate_vertical_distance, check_separation, AircraftState,
};

const V250: i64 = 69_444;

#[test]
fn distances_are_symmetric() {
    let a = AircraftState::new(1_000_000, 2_000_000, 1_000_000, 0, 25_000, 0, V250);
    let b = AircraftState::new(-3_000_000, 5_000_000, 1_050_000, 18_000, 25_000, 0, -V250);
    assert_eq!(
        calculate_horizontal_distance(&a, &b),
        calculate_horizontal_distance(&b, &a)
    );
    assert_eq!(
        calculate_vertical_distance(&a, &b),
        calculate_vertical_distance(&b, &a)
    );
}

#[test]
fn horizontal_distance_is_the_floor_of_the_euclidean_distance() {
    let a = AircraftState::new(0, 0, 1_000_000, 0, 25_000, 0, V250);
    let b = AircraftState::new(3_000_000, 4_000_000, 1_000_000, 0, 25_000, 0, V250);
    assert_eq!(calculate_horizontal_distance(&a, &b), 5_000_000);

    let c = AircraftState::new(1_000_000, 1_000_000, 1_000_000, 0, 25_000, 0, V250);
    // sqrt(2) nm, floored in micro-nm.
    assert_eq!(calculate_horizontal_distance(&a, &c), 1_414_213);
}

#[test]
fn avoidance_heading_wraps_across_north() {
    // Bearing 350 degrees: turning 90 degrees right gives 80 degrees,
    // not 440.
    assert_eq!(avoidance_heading_from_bearing(35_000), 8_000);
    assert_eq!(avoidance_heading_from_bearing(0), 9_000);
    // A bearing from the negative atan2 range wraps up into range.
    assert_eq!(avoidance_heading_from_bearing(-12_000), 33_000);
    assert_eq!(avoidance_heading_from_bearing(27_000), 0);
}

#[test]
fn prediction_advances_along_the_velocity_vector() {
    let a = AircraftState::new(1_000_000, -2_000_000, 1_000_000, 9_000, 25_000, V250, 0);
    let p = predict_position(&a, 10);
    assert_eq!(p.x, 1_000_000 + 10 * V250);
    assert_eq!(p.y, -2_000_000);
    assert_eq!(p.altitude, 1_000_000);
    assert_eq!(p.heading, 9_000);
    assert_eq!(p.speed, 25_000);
}

#[test]
fn turning_away_resolves_a_head_on_conflict() {
    let a = AircraftState::new(0, 0, 1_000_000, 0, 25_000, 0, V250);
    let b = AircraftState::new(0, 5_000_000, 1_000_000, 18_000, 25_000, 0, -V250);
    // Keeping the old heading does not resolve anything.
    assert!(!is_resolution_effective(&a, &b, 0, 0, V250, 3_000_000, 100_000));
    // Turning due east opens the pass to about 3.5 nm.
    assert!(is_resolution_effective(&a, &b, 9_000, V250, 0, 3_000_000, 100_000));
}

#[test]
fn root_separation_check_agrees_with_the_module() {
    let a = AircraftState::new(0, 0, 1_000_000, 0, 25_000, 0, V250);
    let b = AircraftState::new(2_000_000, 0, 1_050_000, 18_000, 25_000, 0, -V250);
    let result = check_separation(&a, &b, 3_000_000, 100_000);
    assert!(!result.is_safe);
    assert_eq!(result.horizontal_distance, 2_000_000);
    assert_eq!(result.vertical_distance, 50_000);
}
