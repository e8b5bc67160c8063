//! Input validation and safety checks on raw snapshot values, in the
//! engine's fixed-point units. These functions are total: they accept any
//! raw value and judge it.

use vstd::prelude::*;

verus! {

use crate::{sq, AircraftState, FULL_CIRCLE};
use vstd::string::StrSliceExecFns;
use crate::arith::lemma_mul_magnitude;

/// Largest distance from the coordinate origin a position may have:
/// 100 nm, micro-nm.
pub const VALID_POSITION_RADIUS: i64 = 100_000_000;

/// Altitude ceiling for a valid state: 60_000 ft, centi-feet.
pub const VALID_ALTITUDE_CEILING: i64 = 6_000_000;

/// Speed bounds for a valid state: 100 kt and 600 kt, centi-knots.
pub const VALID_SPEED_FLOOR: i64 = 10_000;

pub const VALID_SPEED_CEILING: i64 = 60_000;

/// Radar coverage radius: 50 nm, micro-nm.
pub const AIRSPACE_RADIUS: i64 = 50_000_000;

/// A position is valid when it lies within `VALID_POSITION_RADIUS` of the
/// coordinate origin.
pub open spec fn position_valid(x: int, y: int) -> bool {
    sq(x) + sq(y) <= sq(VALID_POSITION_RADIUS as int)
}

/// An altitude is valid between ground level and the ceiling, inclusive.
pub open spec fn altitude_valid(altitude: int) -> bool {
    0 <= altitude <= VALID_ALTITUDE_CEILING as int
}

/// A heading is valid in `[0, FULL_CIRCLE)`.
pub open spec fn heading_valid(heading: int) -> bool {
    0 <= heading < FULL_CIRCLE as int
}

/// A speed is valid between the floor and the ceiling, inclusive.
pub open spec fn speed_valid(speed: int) -> bool {
    VALID_SPEED_FLOOR as int <= speed <= VALID_SPEED_CEILING as int
}

/// Squared distance of a raw position from the origin, exact in 128-bit
/// arithmetic; total over all raw coordinates.
fn origin_dist_sq(x: i64, y: i64) -> (q: u128)
    ensures
        q == sq(x as int) + sq(y as int),
{
    let xw: i128 = x as i128;
    let yw: i128 = y as i128;
    proof {
        lemma_mul_magnitude(
            xw as int,
            xw as int,
            0x8000_0000_0000_0000,
            0x8000_0000_0000_0000,
        );
        lemma_mul_magnitude(
            yw as int,
            yw as int,
            0x8000_0000_0000_0000,
            0x8000_0000_0000_0000,
        );
        crate::arith::lemma_sq_nonneg(xw as int);
        crate::arith::lemma_sq_nonneg(yw as int);
    }
    let x_sq: u128 = (xw * xw) as u128;
    let y_sq: u128 = (yw * yw) as u128;
    x_sq + y_sq
}

/// Validates position coordinates: within `VALID_POSITION_RADIUS` of the
/// origin (equality included).
pub fn validate_position(x: i64, y: i64) -> (r: bool)
    ensures
        r == position_valid(x as int, y as int),
{
    // 100 nm squared, in micro-nm squared.
    origin_dist_sq(x, y) <= 10_000_000_000_000_000
}

/// Validates an altitude.
pub fn validate_altitude(altitude: i64) -> (r: bool)
    ensures
        r == altitude_valid(altitude as int),
{
    0 <= altitude && altitude <= VALID_ALTITUDE_CEILING
}

/// Validates a heading.
pub fn validate_heading(heading: i64) -> (r: bool)
    ensures
        r == heading_valid(heading as int),
{
    0 <= heading && heading < FULL_CIRCLE
}

/// Validates a speed.
pub fn validate_speed(speed: i64) -> (r: bool)
    ensures
        r == speed_valid(speed as int),
{
    VALID_SPEED_FLOOR <= speed && speed <= VALID_SPEED_CEILING
}

/// All four scalar validations of a snapshot: position, altitude,
/// heading, speed. (The velocity components carry no operational range of
/// their own; `crate::state_within_limits` checks the machine bounds.)
pub open spec fn state_valid(s: AircraftState) -> bool {
    position_valid(s.x as int, s.y as int) && altitude_valid(s.altitude as int) && heading_valid(
        s.heading as int,
    ) && speed_valid(s.speed as int)
}

/// Validates the scalar fields of a snapshot.
pub fn validate_state(aircraft: &AircraftState) -> (r: bool)
    ensures
        r == state_valid(*aircraft),
{
    validate_position(aircraft.x, aircraft.y) && validate_altitude(aircraft.altitude)
        && validate_heading(aircraft.heading) && validate_speed(aircraft.speed)
}

/// String equality on character views, for keyword dispatch.
fn str_eq(s: &str, t: &str) -> (r: bool)
    ensures
        r == (s@ == t@),
{
    let n: usize = s.unicode_len();
    if n != t.unicode_len() {
        proof {
            if s@ == t@ {
                assert(s@.len() == t@.len());
            }
        }
        return false;
    }
    let mut i: usize = 0;
    while i < n
        invariant
            i <= n,
            n == s@.len(),
            n == t@.len(),
            forall|j: int| 0 <= j < i ==> s@[j] == t@[j],
        decreases n - i,
    {
        let cs: char = s.get_char(i);
        let ct: char = t.get_char(i);
        if cs != ct {
            proof {
                if s@ == t@ {
                    assert(s@[i as int] == t@[i as int]);
                }
            }
            return false;
        }
        i = i + 1;
    }
    proof {
        assert(s@ =~= t@);
    }
    true
}

/// What `validate_command` decides: the value is held against the
/// validator the command keyword names, and unknown keywords are
/// rejected.
pub open spec fn command_valid(command_type: Seq<char>, value: int) -> bool {
    if command_type == "heading"@ {
        heading_valid(value)
    } else if command_type == "altitude"@ {
        altitude_valid(value)
    } else if command_type == "speed"@ {
        speed_valid(value)
    } else {
        false
    }
}

/// Validates a command input by keyword: `"heading"`, `"altitude"` or
/// `"speed"`, each in its engine unit; any other keyword is invalid.
pub fn validate_command(command_type: &str, value: i64) -> (r: bool)
    ensures
        r == command_valid(command_type@, value as int),
{
    if str_eq(command_type, "heading") {
        validate_heading(value)
    } else if str_eq(command_type, "altitude") {
        validate_altitude(value)
    } else if str_eq(command_type, "speed") {
        validate_speed(value)
    } else {
        false
    }
}

/// The minimum altitude (centi-feet) required at a squared distance
/// (micro-nm squared) from the airport at the origin: 5000 ft beyond
/// 20 nm, 3000 ft beyond 10 nm, anything non-negative close in.
pub open spec fn altitude_safe(altitude: int, x: int, y: int) -> bool {
    if sq(x) + sq(y) > sq(20_000_000) {
        altitude >= 500_000
    } else if sq(x) + sq(y) > sq(10_000_000) {
        altitude >= 300_000
    } else {
        altitude >= 0
    }
}

/// Checks whether an altitude is safe for a position: the farther from
/// the airport at the origin, the higher the required floor.
pub fn is_altitude_safe(altitude: i64, x: i64, y: i64) -> (r: bool)
    ensures
        r == altitude_safe(altitude as int, x as int, y as int),
{
    let d_sq: u128 = origin_dist_sq(x, y);
    if d_sq > 20_000_000 * 20_000_000 {
        altitude >= 500_000
    } else if d_sq > 10_000_000 * 10_000_000 {
        altitude >= 300_000
    } else {
        altitude >= 0
    }
}

/// Checks whether a heading change is safe: the magnitude of the turn,
/// measured the short way around the circle, may not exceed half a
/// circle — which every pair of headings satisfies, so this check never
/// rejects.
pub fn is_heading_change_safe(current_heading: i64, target_heading: i64) -> (r: bool)
    ensures
        r,
{
    let diff: i128 = if target_heading >= current_heading {
        target_heading as i128 - current_heading as i128
    } else {
        current_heading as i128 - target_heading as i128
    };
    let normalized: i128 = if diff > 18_000 {
        36_000 - diff
    } else {
        diff
    };
    normalized <= 18_000
}

/// Checks whether a speed change is safe: at most 150 kt at once.
pub fn is_speed_change_safe(current_speed: i64, target_speed: i64) -> (r: bool)
    ensures
        r == (vstd::math::abs(target_speed - current_speed) <= 15_000),
{
    let diff: i128 = target_speed as i128 - current_speed as i128;
    -15_000 <= diff && diff <= 15_000
}

/// Checks whether an altitude change is safe: at most 20_000 ft at once.
pub fn is_altitude_change_safe(current_altitude: i64, target_altitude: i64) -> (r: bool)
    ensures
        r == (vstd::math::abs(target_altitude - current_altitude) <= 2_000_000),
{
    let diff: i128 = target_altitude as i128 - current_altitude as i128;
    -2_000_000 <= diff && diff <= 2_000_000
}

/// Checks whether an aircraft is inside radar coverage: within
/// `AIRSPACE_RADIUS` of the origin.
pub fn is_in_valid_airspace(aircraft: &AircraftState) -> (r: bool)
    ensures
        r == (sq(aircraft.x as int) + sq(aircraft.y as int) <= sq(AIRSPACE_RADIUS as int)),
{
    // 50 nm squared, in micro-nm squared.
    origin_dist_sq(aircraft.x, aircraft.y) <= 2_500_000_000_000_000
}

/// Clamps a raw value into `[min, max]`, applying the floor first: when
/// `min > max`, the result is `max`.
pub fn sanitize_value(value: i64, min: i64, max: i64) -> (r: i64)
    ensures
        r == vstd::math::min(vstd::math::max(value as int, min as int), max as int),
{
    let floored: i64 = if value > min {
        value
    } else {
        min
    };
    if floored < max {
        floored
    } else {
        max
    }
}

/// Validates a pair of separation minima: the horizontal minimum between
/// 0 and 10 nm, the vertical between 0 and 5000 ft, inclusive.
pub fn validate_separation_standards(horizontal_min: i64, vertical_min: i64) -> (r: bool)
    ensures
        r == (0 <= horizontal_min <= 10_000_000 && 0 <= vertical_min <= 500_000),
{
    0 <= horizontal_min && horizontal_min <= 10_000_000 && 0 <= vertical_min && vertical_min
        <= 500_000
}

/// The speed envelope by altitude a safe configuration must respect: no
/// slower than 140 kt below 5000 ft, no faster than 300 kt below
/// 10_000 ft.
pub open spec fn configuration_safe(s: AircraftState) -> bool {
    !(s.altitude < 500_000 && s.speed < 14_000) && !(s.altitude < 1_000_000 && s.speed > 30_000)
}

/// Checks whether a snapshot's speed is plausible for its altitude.
pub fn is_configuration_safe(aircraft: &AircraftState) -> (r: bool)
    ensures
        r == configuration_safe(*aircraft),
{
    if aircraft.altitude < 500_000 && aircraft.speed < 14_000 {
        return false;
    }
    if aircraft.altitude < 1_000_000 && aircraft.speed > 30_000 {
        return false;
    }
    true
}

} // verus!
