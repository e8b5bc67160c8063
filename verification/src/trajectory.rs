//! Constant-velocity position extrapolation and the sampled-minimum
//! machinery shared by the look-ahead simulations.

use vstd::prelude::*;

verus! {

use crate::{
    AircraftState,
    dist_sq_at,
    pos_x_at,
    pos_y_at,
    sq,
    MAX_LOOKAHEAD_SECONDS,
    MAX_PREDICTED_COORD_UNITS,
    MAX_VELOCITY_UNITS,
};
use crate::arith::{lemma_mul_magnitude, lemma_sq_nonneg};

/// Advancing one further second from time `t` moves each coordinate by one
/// velocity component.
pub proof fn lemma_pos_at_step(s: AircraftState, t: int)
    by (nonlinear_arith)
    ensures
        pos_x_at(s, t + 1) == pos_x_at(s, t) + s.vx,
        pos_y_at(s, t + 1) == pos_y_at(s, t) + s.vy,
{
}

/// A predicted position reached from a well-formed start within the longest
/// look-ahead stays within `MAX_PREDICTED_COORD_UNITS`.
pub proof fn lemma_predicted_coord_bounded(s: AircraftState, t: int)
    requires
        s.wf(),
        0 <= t <= MAX_LOOKAHEAD_SECONDS as int + 1,
    ensures
        -MAX_PREDICTED_COORD_UNITS <= pos_x_at(s, t) <= MAX_PREDICTED_COORD_UNITS,
        -MAX_PREDICTED_COORD_UNITS <= pos_y_at(s, t) <= MAX_PREDICTED_COORD_UNITS,
{
    lemma_mul_magnitude(t, s.vx as int, MAX_LOOKAHEAD_SECONDS as int + 1, MAX_VELOCITY_UNITS as int);
    lemma_mul_magnitude(t, s.vy as int, MAX_LOOKAHEAD_SECONDS as int + 1, MAX_VELOCITY_UNITS as int);
}

/// Extrapolates an aircraft `time_seconds` seconds forward along its
/// velocity vector; altitude, heading, speed and the velocity itself are
/// held constant (straight-and-level flight, no turn or acceleration
/// modelling). Pure and deterministic; a new snapshot is returned.
pub fn predict_position(aircraft: &AircraftState, time_seconds: u64) -> (p: AircraftState)
    requires
        -MAX_PREDICTED_COORD_UNITS <= aircraft.x <= MAX_PREDICTED_COORD_UNITS,
        -MAX_PREDICTED_COORD_UNITS <= aircraft.y <= MAX_PREDICTED_COORD_UNITS,
        -MAX_VELOCITY_UNITS <= aircraft.vx <= MAX_VELOCITY_UNITS,
        -MAX_VELOCITY_UNITS <= aircraft.vy <= MAX_VELOCITY_UNITS,
        time_seconds <= MAX_LOOKAHEAD_SECONDS,
    ensures
        p.x == pos_x_at(*aircraft, time_seconds as int),
        p.y == pos_y_at(*aircraft, time_seconds as int),
        p.altitude == aircraft.altitude,
        p.heading == aircraft.heading,
        p.speed == aircraft.speed,
        p.vx == aircraft.vx,
        p.vy == aircraft.vy,
{
    let t: i64 = time_seconds as i64;
    proof {
        lemma_mul_magnitude(
            t as int,
            aircraft.vx as int,
            MAX_LOOKAHEAD_SECONDS as int,
            MAX_VELOCITY_UNITS as int,
        );
        lemma_mul_magnitude(
            t as int,
            aircraft.vy as int,
            MAX_LOOKAHEAD_SECONDS as int,
            MAX_VELOCITY_UNITS as int,
        );
    }
    let dx: i64 = t * aircraft.vx;
    let dy: i64 = t * aircraft.vy;
    AircraftState {
        x: aircraft.x + dx,
        y: aircraft.y + dy,
        altitude: aircraft.altitude,
        heading: aircraft.heading,
        speed: aircraft.speed,
        vx: aircraft.vx,
        vy: aircraft.vy,
    }
}

/// Minimum of the squared horizontal distances sampled at whole seconds
/// `0, 1, ..., n` (for `n < 0`, just the sample at 0).
pub open spec fn min_dist_sq_through(a: AircraftState, b: AircraftState, n: int) -> int
    decreases n,
{
    if n <= 0 {
        dist_sq_at(a, b, 0)
    } else {
        vstd::math::min(min_dist_sq_through(a, b, n - 1), dist_sq_at(a, b, n))
    }
}

/// The sampled minimum is a lower bound on every sample in the window.
pub proof fn lemma_min_dist_sq_le_sample(a: AircraftState, b: AircraftState, n: int, t: int)
    requires
        0 <= t,
        t <= n || t == 0,
    ensures
        min_dist_sq_through(a, b, n) <= dist_sq_at(a, b, t),
    decreases n,
{
    if n <= 0 || t == n {
    } else {
        lemma_min_dist_sq_le_sample(a, b, n - 1, t);
    }
}

/// Squared distances are non-negative, so the sampled minimum is too.
pub proof fn lemma_min_dist_sq_nonneg(a: AircraftState, b: AircraftState, n: int)
    ensures
        min_dist_sq_through(a, b, n) >= 0,
    decreases n,
{
    lemma_sq_nonneg(pos_x_at(a, n) - pos_x_at(b, n));
    lemma_sq_nonneg(pos_y_at(a, n) - pos_y_at(b, n));
    if n <= 0 {
        lemma_sq_nonneg(pos_x_at(a, 0) - pos_x_at(b, 0));
        lemma_sq_nonneg(pos_y_at(a, 0) - pos_y_at(b, 0));
    } else {
        lemma_min_dist_sq_nonneg(a, b, n - 1);
    }
}

} // verus!
