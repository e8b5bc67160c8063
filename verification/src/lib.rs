//! Trajectory-based conflict and separation engine for pairs of aircraft
//! on a local planar coordinate system.
//!
//! All quantities are exact fixed-point integers, so every computation in
//! this crate is exact integer arithmetic and carries a proved contract:
//!
//! * positions `x`, `y`: micro-nautical-miles (1 unit = 10^-6 nm), east/north
//! * velocities `vx`, `vy`: micro-nautical-miles per second
//! * `altitude`: centi-feet (1 unit = 10^-2 ft)
//! * `heading`: centi-degrees, clockwise from north (36_000 = full circle)
//! * `speed`: centi-knots (ground speed)
//! * times: whole seconds, except where a result is in milliseconds
//!
//! The host that feeds the engine converts its real-valued measurements to
//! these units and decomposes heading and speed into the velocity components
//! `(vx, vy)` (heading 0 is due north, so `vx` carries the sine and `vy` the
//! cosine of the heading); the engine treats the components as the sole
//! source of truth for motion and the heading and speed fields as the source
//! of truth for angle and rate bookkeeping.

use vstd::prelude::*;

pub mod arith;
pub mod conflict;
pub mod separation;
pub mod state;
pub mod trajectory;
pub mod validation;

verus! {

/// Largest coordinate magnitude (micro-nm) the engine accepts as an input
/// position: 100_000 nm, far beyond any local control area.
pub const MAX_COORD_UNITS: i64 = 100_000_000_000;

/// Largest velocity-component magnitude (micro-nm per second) accepted:
/// 1 nm/s, i.e. 3600 knots.
pub const MAX_VELOCITY_UNITS: i64 = 1_000_000;

/// Largest altitude magnitude (centi-feet) accepted: 100 million feet.
pub const MAX_ALTITUDE_UNITS: i64 = 10_000_000_000;

/// Largest speed (centi-knots) accepted: 10_000 knots.
pub const MAX_SPEED_UNITS: i64 = 1_000_000;

/// Centi-degrees in a full circle.
pub const FULL_CIRCLE: i64 = 36_000;

/// Longest look-ahead or sampling window (seconds): one day.
pub const MAX_LOOKAHEAD_SECONDS: u64 = 86_400;

/// Every position reachable from a well-formed state within the longest
/// look-ahead stays below this magnitude (micro-nm), with room to spare:
/// `MAX_COORD_UNITS + (MAX_LOOKAHEAD_SECONDS + 1) * MAX_VELOCITY_UNITS`
/// is under 2 * 10^11.
pub const MAX_PREDICTED_COORD_UNITS: i64 = 200_000_000_000;

/// Coordinate magnitude up to which squared distances are computed without
/// overflow; one prediction step beyond `MAX_PREDICTED_COORD_UNITS` stays
/// below it.
pub const MAX_DISTANCE_COORD_UNITS: i64 = 300_000_000_000;

/// Largest separation minimum (micro-nm) accepted by the conflict
/// classifier: one million nm.
pub const MAX_SEPARATION_UNITS: i64 = 1_000_000_000_000;

/// The square of an integer.
pub open spec fn sq(x: int) -> int {
    x * x
}

/// A single aircraft snapshot. Producing a predicted position always builds
/// a new value; the engine never mutates a snapshot in place.
#[derive(Clone, Copy, Debug)]
pub struct AircraftState {
    /// East coordinate, micro-nm.
    pub x: i64,
    /// North coordinate, micro-nm.
    pub y: i64,
    /// Altitude, centi-feet.
    pub altitude: i64,
    /// Heading, centi-degrees clockwise from north, in `[0, FULL_CIRCLE)`.
    pub heading: i64,
    /// Ground speed, centi-knots.
    pub speed: i64,
    /// East velocity component, micro-nm per second.
    pub vx: i64,
    /// North velocity component, micro-nm per second.
    pub vy: i64,
}

impl AircraftState {
    /// The bounds under which every engine computation is proved free of
    /// overflow. Raw snapshots may violate them; `state_within_limits`
    /// checks them at run time and `crate::validation` applies the far
    /// tighter operational limits.
    pub open spec fn wf(self) -> bool {
        &&& -MAX_COORD_UNITS <= self.x <= MAX_COORD_UNITS
        &&& -MAX_COORD_UNITS <= self.y <= MAX_COORD_UNITS
        &&& -MAX_ALTITUDE_UNITS <= self.altitude <= MAX_ALTITUDE_UNITS
        &&& 0 <= self.heading < FULL_CIRCLE
        &&& 0 <= self.speed <= MAX_SPEED_UNITS
        &&& -MAX_VELOCITY_UNITS <= self.vx <= MAX_VELOCITY_UNITS
        &&& -MAX_VELOCITY_UNITS <= self.vy <= MAX_VELOCITY_UNITS
    }

    /// Builds a snapshot from raw field values. No bounds are imposed here:
    /// validation of raw inputs is a separate concern (`crate::validation`).
    pub fn new(x: i64, y: i64, altitude: i64, heading: i64, speed: i64, vx: i64, vy: i64) -> (s:
        AircraftState)
        ensures
            s == (AircraftState { x, y, altitude, heading, speed, vx, vy }),
    {
        AircraftState { x, y, altitude, heading, speed, vx, vy }
    }
}

/// Result of an instantaneous separation check: whether the pair is safe,
/// and the two distances it was judged on (micro-nm and centi-feet; the
/// horizontal distance is the floor of the Euclidean distance).
#[derive(Clone, Copy, Debug)]
pub struct SeparationResult {
    pub is_safe: bool,
    pub horizontal_distance: i64,
    pub vertical_distance: i64,
}

impl SeparationResult {
    pub fn new(is_safe: bool, horizontal_distance: i64, vertical_distance: i64) -> (r:
        SeparationResult)
        ensures
            r == (SeparationResult { is_safe, horizontal_distance, vertical_distance }),
    {
        SeparationResult { is_safe, horizontal_distance, vertical_distance }
    }
}

/// Run-time check for `AircraftState::wf`, for callers that receive
/// snapshots from outside the verified boundary.
pub fn state_within_limits(s: &AircraftState) -> (r: bool)
    ensures
        r == s.wf(),
{
    -MAX_COORD_UNITS <= s.x && s.x <= MAX_COORD_UNITS && -MAX_COORD_UNITS <= s.y && s.y
        <= MAX_COORD_UNITS && -MAX_ALTITUDE_UNITS <= s.altitude && s.altitude
        <= MAX_ALTITUDE_UNITS && 0 <= s.heading && s.heading < FULL_CIRCLE && 0 <= s.speed
        && s.speed <= MAX_SPEED_UNITS && -MAX_VELOCITY_UNITS <= s.vx && s.vx
        <= MAX_VELOCITY_UNITS && -MAX_VELOCITY_UNITS <= s.vy && s.vy <= MAX_VELOCITY_UNITS
}

/// East coordinate of `s` after `t` seconds of constant-velocity flight.
pub open spec fn pos_x_at(s: AircraftState, t: int) -> int {
    s.x + t * s.vx
}

/// North coordinate of `s` after `t` seconds of constant-velocity flight.
pub open spec fn pos_y_at(s: AircraftState, t: int) -> int {
    s.y + t * s.vy
}

/// Squared horizontal distance (micro-nm squared) between `a` and `b` after
/// `t` seconds of constant-velocity flight of both.
pub open spec fn dist_sq_at(a: AircraftState, b: AircraftState, t: int) -> int {
    sq(pos_x_at(a, t) - pos_x_at(b, t)) + sq(pos_y_at(a, t) - pos_y_at(b, t))
}

/// Vertical separation (centi-feet) between `a` and `b`; constant over time
/// because the engine models straight-and-level flight only.
pub open spec fn vert_dist(a: AircraftState, b: AircraftState) -> int {
    vstd::math::abs(a.altitude - b.altitude) as int
}

/// Vertical separation between two aircraft: the absolute altitude
/// difference, in centi-feet.
pub fn calculate_vertical_distance(a: &AircraftState, b: &AircraftState) -> (d: i64)
    requires
        a.wf(),
        b.wf(),
    ensures
        d == vert_dist(*a, *b),
        d >= 0,
{
    if a.altitude >= b.altitude {
        a.altitude - b.altitude
    } else {
        b.altitude - a.altitude
    }
}

/// Vertical separation is symmetric in its two arguments.
pub proof fn lemma_vertical_distance_symmetric(a: AircraftState, b: AircraftState)
    ensures
        vert_dist(a, b) == vert_dist(b, a),
{
}

/// Horizontal separation is symmetric in its two arguments, at the current
/// positions and at every predicted time.
pub proof fn lemma_horizontal_distance_symmetric(a: AircraftState, b: AircraftState, t: int)
    ensures
        dist_sq_at(a, b, t) == dist_sq_at(b, a, t),
{
    arith::lemma_sq_negate(pos_x_at(a, t) - pos_x_at(b, t));
    arith::lemma_sq_negate(pos_y_at(a, t) - pos_y_at(b, t));
}

/// Checks separation between two aircraft: the crate-root entry point of
/// `separation::check_separation`, for hosts that bind the engine's whole
/// surface from one place.
pub fn check_separation(
    aircraft1: &AircraftState,
    aircraft2: &AircraftState,
    min_horizontal: i64,
    min_vertical: i64,
) -> (r: SeparationResult)
    requires
        aircraft1.wf(),
        aircraft2.wf(),
    ensures
        r.is_safe == separation::separation_safe(
            *aircraft1,
            *aircraft2,
            min_horizontal as int,
            min_vertical as int,
        ),
        sq(r.horizontal_distance as int) <= dist_sq_at(*aircraft1, *aircraft2, 0),
        dist_sq_at(*aircraft1, *aircraft2, 0) < sq(r.horizontal_distance as int + 1),
        r.horizontal_distance >= 0,
        r.vertical_distance == vert_dist(*aircraft1, *aircraft2),
{
    separation::check_separation(aircraft1, aircraft2, min_horizontal, min_vertical)
}

/// Validates a snapshot's scalar fields: the crate-root entry point of
/// `validation::validate_state`.
pub fn validate_aircraft_state(aircraft: &AircraftState) -> (r: bool)
    ensures
        r == validation::state_valid(*aircraft),
{
    validation::validate_state(aircraft)
}

/// Squared horizontal distance between the current positions of `a` and
/// `b`, computed exactly in 128-bit arithmetic.
pub(crate) fn dist_sq_now(a: &AircraftState, b: &AircraftState) -> (q: i128)
    requires
        -MAX_DISTANCE_COORD_UNITS <= a.x <= MAX_DISTANCE_COORD_UNITS,
        -MAX_DISTANCE_COORD_UNITS <= a.y <= MAX_DISTANCE_COORD_UNITS,
        -MAX_DISTANCE_COORD_UNITS <= b.x <= MAX_DISTANCE_COORD_UNITS,
        -MAX_DISTANCE_COORD_UNITS <= b.y <= MAX_DISTANCE_COORD_UNITS,
    ensures
        q == dist_sq_at(*a, *b, 0),
        0 <= q && q <= 2 * sq(2 * MAX_DISTANCE_COORD_UNITS as int),
{
    let dx: i128 = a.x as i128 - b.x as i128;
    let dy: i128 = a.y as i128 - b.y as i128;
    assert(0 <= dx * dx && dx * dx <= sq(2 * MAX_DISTANCE_COORD_UNITS as int)) by (nonlinear_arith)
        requires
            -2 * MAX_DISTANCE_COORD_UNITS as int <= dx <= 2 * MAX_DISTANCE_COORD_UNITS as int,
    ;
    assert(0 <= dy * dy && dy * dy <= sq(2 * MAX_DISTANCE_COORD_UNITS as int)) by (nonlinear_arith)
        requires
            -2 * MAX_DISTANCE_COORD_UNITS as int <= dy <= 2 * MAX_DISTANCE_COORD_UNITS as int,
    ;
    dx * dx + dy * dy
}

/// Horizontal separation between two aircraft at their current positions:
/// the floor of the Euclidean distance of `(x, y)`, in micro-nm.
pub fn calculate_horizontal_distance(a: &AircraftState, b: &AircraftState) -> (d: i64)
    requires
        a.wf(),
        b.wf(),
    ensures
        sq(d as int) <= dist_sq_at(*a, *b, 0) && dist_sq_at(*a, *b, 0) < sq(d as int + 1),
        d >= 0,
{
    let q: i128 = dist_sq_now(a, b);
    arith::dist_floor_sqrt(q)
}

} // verus!
