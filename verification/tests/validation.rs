use rust_safety::validation::{
    is_altitude_change_safe, is_altitude_safe, is_configuration_safe, is_heading_change_safe,
    is_in_valid_airspace, is_speed_change_safe, sanitize_value, validate_altitude,
    validate_command, validate_heading, validate_position, validate_separation_standards,
    validate_speed, validate_state,
};
use rust_safety::{state_within_limits, validate_aircraft_state, AircraftState};

const V250: i64 = 69_444;

#[test]
fn test_validate_altitude() {
    assert!(validate_altitude(1_000_000));
    assert!(!validate_altitude(-100_000));
    assert!(!validate_altitude(7_000_000));
}

#[test]
fn test_validate_heading() {
    assert!(validate_heading(18_000));
    assert!(validate_heading(0));
    assert!(validate_heading(35_990));
    assert!(!validate_heading(36_000));
    assert!(!validate_heading(-1_000));
}

#[test]
fn test_validate_speed() {
    assert!(validate_speed(25_000));
    assert!(!validate_speed(5_000));
    assert!(!validate_speed(70_000));
}

#[test]
fn test_validate_state() {
    let valid = AircraftState::new(10_000_000, 10_000_000, 1_000_000, 18_000, 25_000, 0, -V250);
    assert!(validate_state(&valid));

    let invalid = AircraftState::new(10_000_000, 10_000_000, -100_000, 18_000, 25_000, 0, -V250);
    assert!(!validate_state(&invalid));
}

#[test]
fn test_sanitize_value() {
    assert_eq!(sanitize_value(150, 100, 200), 150);
    assert_eq!(sanitize_value(50, 100, 200), 100);
    assert_eq!(sanitize_value(250, 100, 200), 200);
}

#[test]
fn position_radius_is_inclusive() {
    // Exactly 100 nm east of the origin.
    assert!(validate_position(100_000_000, 0));
    assert!(!validate_position(100_000_001, 0));
    assert!(validate_position(-60_000_000, 80_000_000));
}

#[test]
fn command_validation_dispatches_by_keyword() {
    assert!(validate_command("heading", 18_000));
    assert!(!validate_command("heading", 36_000));
    assert!(validate_command("altitude", 1_000_000));
    assert!(validate_command("speed", 25_000));
    assert!(!validate_command("speed", 5_000));
    assert!(!validate_command("climb", 1_000));
}

#[test]
fn altitude_floor_rises_with_distance() {
    // Beyond 20 nm: at least 5000 ft.
    assert!(is_altitude_safe(500_000, 25_000_000, 0));
    assert!(!is_altitude_safe(499_999, 25_000_000, 0));
    // Between 10 and 20 nm: at least 3000 ft.
    assert!(is_altitude_safe(300_000, 15_000_000, 0));
    assert!(!is_altitude_safe(299_999, 15_000_000, 0));
    // Close in: anything non-negative.
    assert!(is_altitude_safe(0, 5_000_000, 0));
    assert!(!is_altitude_safe(-1, 5_000_000, 0));
}

#[test]
fn change_magnitude_limits() {
    assert!(is_heading_change_safe(1_000, 35_000));
    assert!(is_speed_change_safe(25_000, 40_000));
    assert!(!is_speed_change_safe(25_000, 40_001));
    assert!(is_altitude_change_safe(1_000_000, 3_000_000));
    assert!(!is_altitude_change_safe(1_000_000, 3_000_001));
}

#[test]
fn airspace_radius_is_inclusive() {
    let inside = AircraftState::new(30_000_000, 40_000_000, 1_000_000, 0, 25_000, 0, V250);
    assert!(is_in_valid_airspace(&inside));
    let outside = AircraftState::new(30_000_001, 40_000_000, 1_000_000, 0, 25_000, 0, V250);
    assert!(!is_in_valid_airspace(&outside));
}

#[test]
fn separation_standards_bounds() {
    assert!(validate_separation_standards(3_000_000, 100_000));
    assert!(!validate_separation_standards(-1, 100_000));
    assert!(!validate_separation_standards(10_000_001, 100_000));
    assert!(!validate_separation_standards(3_000_000, 500_001));
}

#[test]
fn configuration_envelope() {
    // Slow and low: unsafe.
    let slow_low = AircraftState::new(0, 0, 400_000, 0, 13_000, 0, 0);
    assert!(!is_configuration_safe(&slow_low));
    // Fast and low: unsafe.
    let fast_low = AircraftState::new(0, 0, 900_000, 0, 31_000, 0, 0);
    assert!(!is_configuration_safe(&fast_low));
    // Cruise: safe.
    let cruise = AircraftState::new(0, 0, 3_000_000, 0, 45_000, 0, 0);
    assert!(is_configuration_safe(&cruise));
}

#[test]
fn engine_limits_check() {
    let ok = AircraftState::new(0, 0, 1_000_000, 18_000, 25_000, 0, -V250);
    assert!(state_within_limits(&ok));
    let too_fast = AircraftState::new(0, 0, 1_000_000, 18_000, 25_000, 0, 2_000_000);
    assert!(!state_within_limits(&too_fast));
    assert!(validate_aircraft_state(&ok));
}
