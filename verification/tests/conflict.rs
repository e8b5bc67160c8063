use rust_safety::conflict::{detect_conflict, ConflictSeverity};
use rust_safety::AircraftState;

// 250 kt converted to micro-nm per second: round(250 * 10^6 / 3600).
const V250: i64 = 69_444;

#[test]
fn test_no_conflict() {
    let aircraft1 = AircraftState::new(0, 0, 1_000_000, 0, 25_000, 0, V250);
    let aircraft2 = AircraftState::new(
        10_000_000,
        10_000_000,
        1_000_000,
        18_000,
        25_000,
        0,
        -V250,
    );

    let conflict = detect_conflict(&aircraft1, &aircraft2, 3_000_000, 100_000, 300);
    assert_eq!(conflict.severity, ConflictSeverity::NoConflict);
}

#[test]
fn test_conflict_detection() {
    let aircraft1 = AircraftState::new(0, 0, 1_000_000, 0, 25_000, 0, V250);
    let aircraft2 = AircraftState::new(0, 5_000_000, 1_000_000, 18_000, 25_000, 0, -V250);

    let conflict = detect_conflict(&aircraft1, &aircraft2, 3_000_000, 100_000, 300);
    assert_ne!(conflict.severity, ConflictSeverity::NoConflict);
}

#[test]
fn head_on_conflict_is_critical_and_latches_first_breach() {
    // Closing at 500 kt from 5 nm apart, the 3 nm minimum is first
    // undercut at the sampled second 15.
    let aircraft1 = AircraftState::new(0, 0, 1_000_000, 0, 25_000, 0, V250);
    let aircraft2 = AircraftState::new(0, 5_000_000, 1_000_000, 18_000, 25_000, 0, -V250);

    let conflict = detect_conflict(&aircraft1, &aircraft2, 3_000_000, 100_000, 300);
    assert_eq!(conflict.severity, ConflictSeverity::Critical);
    assert_eq!(conflict.time_to_conflict, 15);
    // The pair meets almost exactly between samples; the closest sample
    // leaves 32 micro-nm.
    assert_eq!(conflict.minimum_distance, 32);
}

#[test]
fn no_breach_reports_sentinel_time() {
    let aircraft1 = AircraftState::new(0, 0, 1_000_000, 0, 25_000, 0, V250);
    let aircraft2 = AircraftState::new(
        10_000_000,
        10_000_000,
        1_000_000,
        18_000,
        25_000,
        0,
        -V250,
    );

    let conflict = detect_conflict(&aircraft1, &aircraft2, 3_000_000, 100_000, 300);
    assert_eq!(conflict.time_to_conflict, -1);
    // The lateral offset keeps the pair 10 nm apart throughout.
    assert_eq!(conflict.minimum_distance, 10_000_000);
}

#[test]
fn pure_vertical_violation_alone_raises_nothing() {
    // 2 nm apart horizontally forever (parallel tracks), 500 ft apart
    // vertically: the vertical minimum is violated but the horizontal
    // distance never drops below 3 nm, so no conflict is reported.
    let aircraft1 = AircraftState::new(0, 0, 1_000_000, 0, 25_000, 0, V250);
    let aircraft2 = AircraftState::new(3_500_000, 0, 1_050_000, 0, 25_000, 0, V250);

    let conflict = detect_conflict(&aircraft1, &aircraft2, 3_000_000, 100_000, 300);
    assert_eq!(conflict.severity, ConflictSeverity::NoConflict);
    assert_eq!(conflict.time_to_conflict, -1);
}

#[test]
fn late_breach_with_wide_miss_is_warning() {
    // A northbound aircraft passes a stationary intruder 1.8 nm abeam;
    // the first simultaneous breach comes at the sampled second 49 and
    // the miss distance stays above half the minimum.
    let aircraft1 = AircraftState::new(1_800_000, -4_800_000, 1_000_000, 0, 18_000, 0, 50_000);
    let aircraft2 = AircraftState::new(0, 0, 1_000_000, 0, 0, 0, 0);

    let conflict = detect_conflict(&aircraft1, &aircraft2, 3_000_000, 100_000, 300);
    assert_eq!(conflict.time_to_conflict, 49);
    assert_eq!(conflict.severity, ConflictSeverity::Warning);
}

#[test]
fn later_breach_with_wider_miss_is_advisory() {
    let aircraft1 = AircraftState::new(2_800_000, -4_100_000, 1_000_000, 0, 18_000, 0, 50_000);
    let aircraft2 = AircraftState::new(0, 0, 1_000_000, 0, 0, 0, 0);

    let conflict = detect_conflict(&aircraft1, &aircraft2, 3_000_000, 100_000, 300);
    assert_eq!(conflict.time_to_conflict, 61);
    assert_eq!(conflict.severity, ConflictSeverity::Advisory);
}

#[test]
fn close_miss_escalates_to_critical_regardless_of_time() {
    // The breach only comes at the sampled second 34, but the pass is
    // 1 nm abeam, under half the 3 nm minimum.
    let aircraft1 = AircraftState::new(1_000_000, -4_500_000, 1_000_000, 0, 18_000, 0, 50_000);
    let aircraft2 = AircraftState::new(0, 0, 1_000_000, 0, 0, 0, 0);

    let conflict = detect_conflict(&aircraft1, &aircraft2, 3_000_000, 100_000, 300);
    assert_eq!(conflict.time_to_conflict, 34);
    assert_eq!(conflict.severity, ConflictSeverity::Critical);
}

#[test]
fn coincident_aircraft_conflict_immediately() {
    // Same point, diverging headings: the minimum distance over the
    // window is the zero distance at the start, and the first sampled
    // second already breaches.
    let aircraft1 = AircraftState::new(0, 0, 1_000_000, 0, 25_000, 0, V250);
    let aircraft2 = AircraftState::new(0, 0, 1_000_000, 9_000, 25_000, V250, 0);

    let conflict = detect_conflict(&aircraft1, &aircraft2, 3_000_000, 100_000, 300);
    assert_eq!(conflict.minimum_distance, 0);
    assert_ne!(conflict.severity, ConflictSeverity::NoConflict);
    assert_eq!(conflict.severity, ConflictSeverity::Critical);
    assert_eq!(conflict.time_to_conflict, 1);
}

#[test]
fn look_ahead_window_runs_from_one_to_the_bound_inclusive() {
    // Closing at 500 kt from 3.25 nm: the 3 nm minimum is first undercut
    // at the sampled second 2, so a one-second look-ahead sees nothing.
    let aircraft1 = AircraftState::new(0, 0, 1_000_000, 0, 25_000, 0, V250);
    let aircraft2 = AircraftState::new(0, 3_250_000, 1_000_000, 18_000, 25_000, 0, -V250);

    let short = detect_conflict(&aircraft1, &aircraft2, 3_000_000, 100_000, 1);
    assert_eq!(short.time_to_conflict, -1);
    assert_eq!(short.severity, ConflictSeverity::NoConflict);

    let longer = detect_conflict(&aircraft1, &aircraft2, 3_000_000, 100_000, 2);
    assert_eq!(longer.time_to_conflict, 2);
}
