//! Separation monitoring: the instantaneous safety check, a one-second
//! convergence heuristic, the closed-form closest-point-of-approach time,
//! and a discretized minimum-separation sampling that cross-checks it.

use vstd::prelude::*;

verus! {

use crate::{
    AircraftState,
    SeparationResult,
    calculate_horizontal_distance,
    calculate_vertical_distance,
    dist_sq_at,
    dist_sq_now,
    sq,
    vert_dist,
    MAX_DISTANCE_COORD_UNITS,
    MAX_LOOKAHEAD_SECONDS,
};
use crate::arith::{
    dist_floor_sqrt,
    lemma_floor_sqrt_compare,
    lemma_mul_magnitude,
    lemma_sq_nonneg,
};
use crate::trajectory::{
    lemma_pos_at_step,
    lemma_predicted_coord_bounded,
    min_dist_sq_through,
    predict_position,
};

/// The horizontal dimension alone provides adequate separation: the
/// distance between the current positions is at least `min_h`. A
/// non-positive minimum is always met.
pub open spec fn horizontal_separation_ok(a: AircraftState, b: AircraftState, min_h: int) -> bool {
    min_h <= 0 || dist_sq_at(a, b, 0) >= sq(min_h)
}

/// The vertical dimension alone provides adequate separation.
pub open spec fn vertical_separation_ok(a: AircraftState, b: AircraftState, min_v: int) -> bool {
    vert_dist(a, b) >= min_v
}

/// The instantaneous safety criterion: the pair is safe when *either*
/// dimension alone meets its minimum, equality at a threshold included.
/// (The predictive conflict check instead demands a simultaneous breach
/// of both dimensions before it reports anything.)
pub open spec fn separation_safe(a: AircraftState, b: AircraftState, min_h: int, min_v: int) -> bool {
    horizontal_separation_ok(a, b, min_h) || vertical_separation_ok(a, b, min_v)
}

/// Checks whether the separation standards are met between two aircraft
/// right now. Boundary-inclusive in both dimensions: a distance exactly
/// equal to its minimum counts as safe.
pub fn check_separation(
    aircraft1: &AircraftState,
    aircraft2: &AircraftState,
    min_horizontal: i64,
    min_vertical: i64,
) -> (r: SeparationResult)
    requires
        aircraft1.wf(),
        aircraft2.wf(),
    ensures
        r.is_safe == separation_safe(
            *aircraft1,
            *aircraft2,
            min_horizontal as int,
            min_vertical as int,
        ),
        sq(r.horizontal_distance as int) <= dist_sq_at(*aircraft1, *aircraft2, 0),
        dist_sq_at(*aircraft1, *aircraft2, 0) < sq(r.horizontal_distance as int + 1),
        r.horizontal_distance >= 0,
        r.vertical_distance == vert_dist(*aircraft1, *aircraft2),
        r.is_safe == (r.horizontal_distance >= min_horizontal || r.vertical_distance
            >= min_vertical),
{
    let horizontal_distance: i64 = calculate_horizontal_distance(aircraft1, aircraft2);
    let vertical_distance: i64 = calculate_vertical_distance(aircraft1, aircraft2);
    proof {
        lemma_floor_sqrt_compare(
            horizontal_distance as int,
            dist_sq_at(*aircraft1, *aircraft2, 0),
            min_horizontal as int,
        );
    }
    let is_safe: bool = horizontal_distance >= min_horizontal || vertical_distance
        >= min_vertical;
    SeparationResult::new(is_safe, horizontal_distance, vertical_distance)
}

/// A horizontal distance reported as exactly the horizontal minimum is
/// judged safe, whatever the vertical distance: the safety criterion is
/// boundary-inclusive.
pub proof fn lemma_check_separation_boundary_inclusive(
    a: AircraftState,
    b: AircraftState,
    min_h: int,
    min_v: int,
    reported_h: int,
)
    requires
        reported_h == min_h,
        reported_h >= 0,
        sq(reported_h) <= dist_sq_at(a, b, 0),
        vert_dist(a, b) < min_v,
    ensures
        separation_safe(a, b, min_h, min_v),
{
}

/// Whether the pair is converging: true exactly when the horizontal
/// distance one second ahead is strictly smaller than the current one
/// (stated on the exact squared distances, which orders the same way).
/// A one-second heuristic, not a derivative sign analysis.
pub fn are_converging(aircraft1: &AircraftState, aircraft2: &AircraftState) -> (conv: bool)
    requires
        aircraft1.wf(),
        aircraft2.wf(),
    ensures
        conv == (dist_sq_at(*aircraft1, *aircraft2, 1) < dist_sq_at(*aircraft1, *aircraft2, 0)),
{
    let current_sq: i128 = dist_sq_now(aircraft1, aircraft2);
    proof {
        lemma_predicted_coord_bounded(*aircraft1, 1);
        lemma_predicted_coord_bounded(*aircraft2, 1);
        lemma_pos_at_step(*aircraft1, 0);
        lemma_pos_at_step(*aircraft2, 0);
    }
    let future1: AircraftState = predict_position(aircraft1, 1);
    let future2: AircraftState = predict_position(aircraft2, 1);
    let future_sq: i128 = dist_sq_now(&future1, &future2);
    future_sq < current_sq
}

/// Squared magnitude of the relative velocity of the pair (micro-nm per
/// second, squared).
pub open spec fn rel_speed_sq(a: AircraftState, b: AircraftState) -> int {
    sq(b.vx - a.vx) + sq(b.vy - a.vy)
}

/// Dot product of relative position and relative velocity; negative
/// exactly when the pair is closing, and the closed-form time of closest
/// approach is `-approach_dot / rel_speed_sq`.
pub open spec fn approach_dot(a: AircraftState, b: AircraftState) -> int {
    (b.x - a.x) * (b.vx - a.vx) + (b.y - a.y) * (b.vy - a.vy)
}

/// Relative motion below this squared magnitude (micro-nm per second,
/// squared) counts as none: 10^-10 nm^2/s^2 expressed in engine units.
pub const MIN_RELATIVE_MOTION_SQ: i128 = 100;

/// Closed-form time of closest point of approach, in milliseconds.
///
/// Minimizing the squared relative distance over time gives
/// `t* = -approach_dot / rel_speed_sq`. Returns nothing when the relative
/// motion is negligible (parallel or identical tracks) or when the
/// closest approach is not in the future (`t* <= 0`); otherwise the floor
/// of `t*` in milliseconds.
pub fn time_to_minimum_separation(aircraft1: &AircraftState, aircraft2: &AircraftState) -> (t:
    Option<u64>)
    requires
        aircraft1.wf(),
        aircraft2.wf(),
    ensures
        (t is None) == (rel_speed_sq(*aircraft1, *aircraft2) < MIN_RELATIVE_MOTION_SQ as int
            || approach_dot(*aircraft1, *aircraft2) >= 0),
        t matches Some(ms) ==> ms == 1000 * (-approach_dot(*aircraft1, *aircraft2)) / rel_speed_sq(
            *aircraft1,
            *aircraft2,
        ),
{
    let dx: i128 = aircraft2.x as i128 - aircraft1.x as i128;
    let dy: i128 = aircraft2.y as i128 - aircraft1.y as i128;
    let dvx: i128 = aircraft2.vx as i128 - aircraft1.vx as i128;
    let dvy: i128 = aircraft2.vy as i128 - aircraft1.vy as i128;
    proof {
        lemma_mul_magnitude(dvx as int, dvx as int, 2_000_000, 2_000_000);
        lemma_mul_magnitude(dvy as int, dvy as int, 2_000_000, 2_000_000);
        lemma_mul_magnitude(dx as int, dvx as int, 200_000_000_000, 2_000_000);
        lemma_mul_magnitude(dy as int, dvy as int, 200_000_000_000, 2_000_000);
    }
    let relative_speed_sq: i128 = dvx * dvx + dvy * dvy;
    if relative_speed_sq < MIN_RELATIVE_MOTION_SQ {
        return None;
    }
    let dot: i128 = dx * dvx + dy * dvy;
    if dot >= 0 {
        // The closest approach lies now or in the past.
        return None;
    }
    let numerator: u128 = (-dot) as u128;
    let t_ms: u128 = numerator * 1000 / (relative_speed_sq as u128);
    proof {
        vstd::arithmetic::div_mod::lemma_div_is_ordered_by_denominator(
            numerator as int * 1000,
            100,
            relative_speed_sq as int,
        );
    }
    Some(t_ms as u64)
}

/// Two aircraft flying the same velocity vector (as identical heading and
/// speed decompose to) have no relative motion at all, so no closest point
/// of approach exists for them, regardless of their positions.
pub proof fn lemma_identical_velocity_no_cpa(a: AircraftState, b: AircraftState)
    requires
        a.vx == b.vx,
        a.vy == b.vy,
    ensures
        rel_speed_sq(a, b) == 0,
        rel_speed_sq(a, b) < MIN_RELATIVE_MOTION_SQ as int,
{
}

/// Minimum horizontal separation observed over `duration_seconds`:
/// independent one-second sampling at the whole seconds
/// `0, 1, ..., duration_seconds` inclusive, returning the floor of the
/// smallest sampled distance in micro-nm.
pub fn minimum_separation_over_time(
    aircraft1: &AircraftState,
    aircraft2: &AircraftState,
    duration_seconds: u64,
) -> (m: i64)
    requires
        aircraft1.wf(),
        aircraft2.wf(),
        duration_seconds <= MAX_LOOKAHEAD_SECONDS,
    ensures
        sq(m as int) <= min_dist_sq_through(*aircraft1, *aircraft2, duration_seconds as int),
        min_dist_sq_through(*aircraft1, *aircraft2, duration_seconds as int) < sq(m as int + 1),
        m >= 0,
{
    let ghost a: AircraftState = *aircraft1;
    let ghost b: AircraftState = *aircraft2;
    let mut min_sq: i128 = dist_sq_now(aircraft1, aircraft2);
    let mut temp1: AircraftState = *aircraft1;
    let mut temp2: AircraftState = *aircraft2;
    let mut current_time: u64 = 1;
    while current_time <= duration_seconds
        invariant
            a.wf(),
            b.wf(),
            a == *aircraft1,
            b == *aircraft2,
            duration_seconds <= MAX_LOOKAHEAD_SECONDS,
            1 <= current_time,
            current_time <= duration_seconds + 1,
            temp1.x == crate::pos_x_at(a, current_time as int - 1),
            temp1.y == crate::pos_y_at(a, current_time as int - 1),
            temp1.vx == a.vx,
            temp1.vy == a.vy,
            temp2.x == crate::pos_x_at(b, current_time as int - 1),
            temp2.y == crate::pos_y_at(b, current_time as int - 1),
            temp2.vx == b.vx,
            temp2.vy == b.vy,
            min_sq == min_dist_sq_through(a, b, current_time as int - 1),
            0 <= min_sq,
            min_sq <= 2 * sq(2 * MAX_DISTANCE_COORD_UNITS as int),
        decreases duration_seconds + 1 - current_time,
    {
        proof {
            lemma_predicted_coord_bounded(a, current_time as int - 1);
            lemma_predicted_coord_bounded(b, current_time as int - 1);
            lemma_predicted_coord_bounded(a, current_time as int);
            lemma_predicted_coord_bounded(b, current_time as int);
            lemma_pos_at_step(a, current_time as int - 1);
            lemma_pos_at_step(b, current_time as int - 1);
        }
        temp1 = predict_position(&temp1, 1);
        temp2 = predict_position(&temp2, 1);
        let step_sq: i128 = dist_sq_now(&temp1, &temp2);
        proof {
            assert(step_sq == dist_sq_at(a, b, current_time as int));
        }
        if step_sq < min_sq {
            min_sq = step_sq;
        }
        current_time = current_time + 1;
    }
    dist_floor_sqrt(min_sq)
}

/// Expanding the squared relative distance at time `t` into a quadratic
/// in `t`.
proof fn lemma_quadratic_expand(px: int, py: int, vx: int, vy: int, t: int)
    ensures
        (px + t * vx) * (px + t * vx) + (py + t * vy) * (py + t * vy) == (px * px + py * py) + 2 * (
        (px * vx + py * vy) * t) + (vx * vx + vy * vy) * (t * t),
{
    assert((px + t * vx) * (px + t * vx) == px * px + 2 * ((px * vx) * t) + (vx * vx) * (t * t))
        by (nonlinear_arith);
    assert((py + t * vy) * (py + t * vy) == py * py + 2 * ((py * vy) * t) + (vy * vy) * (t * t))
        by (nonlinear_arith);
    vstd::arithmetic::mul::lemma_mul_is_distributive_add_other_way(t, px * vx, py * vy);
    vstd::arithmetic::mul::lemma_mul_is_distributive_add_other_way(t * t, vx * vx, vy * vy);
}

/// The algebraic core of the consistency between the sampled minimum and
/// the closed-form closest approach: scaling the squared distance at any
/// time `t` by the squared relative speed exceeds the scaled squared
/// distance at the true (real-valued) closest approach by an exact
/// square.
proof fn lemma_cpa_pointwise(a: AircraftState, b: AircraftState, t: int)
    ensures
        rel_speed_sq(a, b) * dist_sq_at(a, b, t) - (rel_speed_sq(a, b) * dist_sq_at(a, b, 0) - sq(
            approach_dot(a, b),
        )) == sq(approach_dot(a, b) + rel_speed_sq(a, b) * t),
{
    let px = b.x as int - a.x as int;
    let py = b.y as int - a.y as int;
    let vx = b.vx as int - a.vx as int;
    let vy = b.vy as int - a.vy as int;
    let quad = (px + t * vx) * (px + t * vx) + (py + t * vy) * (py + t * vy);
    let c = rel_speed_sq(a, b);
    let dot = approach_dot(a, b);

    // The relative displacement at time `t` is the negation of the
    // pairwise coordinate difference the distance uses.
    vstd::arithmetic::mul::lemma_mul_is_distributive_sub(t, b.vx as int, a.vx as int);
    vstd::arithmetic::mul::lemma_mul_is_distributive_sub(t, b.vy as int, a.vy as int);
    crate::arith::lemma_sq_negate(px + t * vx);
    crate::arith::lemma_sq_negate(py + t * vy);
    crate::arith::lemma_sq_negate(px);
    crate::arith::lemma_sq_negate(py);
    assert(dist_sq_at(a, b, t) == quad);
    assert(dist_sq_at(a, b, 0) == px * px + py * py);

    // The squared distance is the quadratic `A + 2*B*t + C*t^2` in `t`.
    lemma_quadratic_expand(px, py, vx, vy, t);
    assert(quad == dist_sq_at(a, b, 0) + 2 * ((dot) * t) + c * (t * t));

    // Completing the square in the quadratic.
    assert(c * (dist_sq_at(a, b, 0) + 2 * ((dot) * t) + c * (t * t)) - (c * dist_sq_at(a, b, 0)
        - dot * dot) == (dot + c * t) * (dot + c * t)) by (nonlinear_arith);
}

/// Discretized sampling never undercuts the analytic minimum: for every
/// window, the sampled minimum squared distance, scaled by the squared
/// relative speed, is at least the scaled squared distance at the true
/// closest point of approach. (For a positive relative speed `C` this
/// says exactly that the sampled minimum is at least
/// `dist_sq_at(0) - approach_dot^2 / C`, the squared distance at the
/// real-valued approach time `-approach_dot / C`.)
pub proof fn lemma_sampling_never_below_cpa(a: AircraftState, b: AircraftState, n: int)
    ensures
        rel_speed_sq(a, b) * min_dist_sq_through(a, b, n) >= rel_speed_sq(a, b) * dist_sq_at(
            a,
            b,
            0,
        ) - sq(approach_dot(a, b)),
    decreases n,
{
    if n <= 0 {
        lemma_sq_nonneg(approach_dot(a, b));
    } else {
        lemma_sampling_never_below_cpa(a, b, n - 1);
        lemma_cpa_pointwise(a, b, n);
        lemma_sq_nonneg(approach_dot(a, b) + rel_speed_sq(a, b) * n);
    }
}

/// The same consistency for the reported value: the floor `m` that
/// `minimum_separation_over_time` returns sits at most one unit under
/// the sampled minimum, so one unit above it already clears the scaled
/// squared distance at the true closest approach.
pub proof fn lemma_reported_minimum_never_below_cpa(
    a: AircraftState,
    b: AircraftState,
    n: int,
    m: int,
)
    requires
        m >= 0,
        sq(m) <= min_dist_sq_through(a, b, n),
        min_dist_sq_through(a, b, n) < sq(m + 1),
    ensures
        rel_speed_sq(a, b) * sq(m + 1) >= rel_speed_sq(a, b) * dist_sq_at(a, b, 0) - sq(
            approach_dot(a, b),
        ),
{
    lemma_sampling_never_below_cpa(a, b, n);
    lemma_sq_nonneg(b.vx - a.vx);
    lemma_sq_nonneg(b.vy - a.vy);
    assert(rel_speed_sq(a, b) * min_dist_sq_through(a, b, n) <= rel_speed_sq(a, b) * sq(m + 1))
        by (nonlinear_arith)
        requires
            rel_speed_sq(a, b) >= 0,
            min_dist_sq_through(a, b, n) <= sq(m + 1),
    ;
}

} // verus!
