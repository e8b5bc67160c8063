//! Predictive conflict detection: a time-stepped look-ahead simulation of
//! two aircraft, a first-breach latch, a severity classification that
//! blends "how soon" and "how close", and heading-based avoidance advice.

use vstd::prelude::*;

verus! {

use crate::{
    AircraftState,
    calculate_vertical_distance,
    dist_sq_at,
    dist_sq_now,
    sq,
    vert_dist,
    FULL_CIRCLE,
    MAX_DISTANCE_COORD_UNITS,
    MAX_LOOKAHEAD_SECONDS,
    MAX_SEPARATION_UNITS,
    MAX_VELOCITY_UNITS,
};
use crate::arith::dist_floor_sqrt;
use crate::trajectory::{
    lemma_min_dist_sq_le_sample,
    lemma_min_dist_sq_nonneg,
    lemma_pos_at_step,
    lemma_predicted_coord_bounded,
    min_dist_sq_through,
    predict_position,
};

/// Conflict severity levels, least to most urgent.
#[derive(Debug, Clone, Copy, PartialEq, Eq, Structural)]
pub enum ConflictSeverity {
    NoConflict,
    Advisory,
    Warning,
    Critical,
}

/// Result of a look-ahead conflict check. `time_to_conflict` is in whole
/// seconds with `-1` as the documented "no breach found" sentinel;
/// `minimum_distance` is the floor of the smallest horizontal distance
/// (micro-nm) observed over the whole window, the current positions
/// included.
#[derive(Debug, Clone, Copy)]
pub struct ConflictInfo {
    pub severity: ConflictSeverity,
    pub time_to_conflict: i64,
    pub minimum_distance: i64,
}

impl ConflictInfo {
    pub fn new(severity: ConflictSeverity, time_to_conflict: i64, minimum_distance: i64) -> (c:
        ConflictInfo)
        ensures
            c == (ConflictInfo { severity, time_to_conflict, minimum_distance }),
    {
        ConflictInfo { severity, time_to_conflict, minimum_distance }
    }
}

/// The horizontal distance at time `t` is below `num/den` times the
/// separation minimum `min_h`. Stated on the exact squared distance
/// `d_sq`: for a non-negative distance `d` and positive `min_h`,
/// `d < (num/den)*min_h` holds exactly when `den^2 * d^2 < num^2 * min_h^2`.
/// A non-positive minimum is never undercut.
pub open spec fn closer_than_scaled(d_sq: int, min_h: int, num: int, den: int) -> bool {
    min_h > 0 && den * den * d_sq < num * num * sq(min_h)
}

/// Both separation minima are simultaneously violated at the positions
/// sampled `k` seconds ahead. Vertical separation is constant because
/// altitude is held constant.
pub open spec fn breach_at(
    a: AircraftState,
    b: AircraftState,
    min_h: int,
    min_v: int,
    k: int,
) -> bool {
    min_h > 0 && dist_sq_at(a, b, k) < sq(min_h) && vert_dist(a, b) < min_v
}

/// The earliest sampled whole second in `1, ..., n` at which both minima
/// are breached, or `-1` if none of them breaches.
pub open spec fn first_breach_through(
    a: AircraftState,
    b: AircraftState,
    min_h: int,
    min_v: int,
    n: int,
) -> int
    decreases n,
{
    if n < 1 {
        -1
    } else if first_breach_through(a, b, min_h, min_v, n - 1) >= 0 {
        first_breach_through(a, b, min_h, min_v, n - 1)
    } else if breach_at(a, b, min_h, min_v, n) {
        n
    } else {
        -1
    }
}

/// What `first_breach_through` returns: `-1` exactly when no sampled
/// second in the window breaches, and otherwise the least breaching one.
pub proof fn lemma_first_breach_characterization(
    a: AircraftState,
    b: AircraftState,
    min_h: int,
    min_v: int,
    n: int,
)
    ensures
        first_breach_through(a, b, min_h, min_v, n) == -1 ==> forall|k: int|
            1 <= k <= n ==> !breach_at(a, b, min_h, min_v, k),
        first_breach_through(a, b, min_h, min_v, n) != -1 ==> 1 <= first_breach_through(
            a,
            b,
            min_h,
            min_v,
            n,
        ) <= n && breach_at(a, b, min_h, min_v, first_breach_through(a, b, min_h, min_v, n)) && (
        forall|k: int|
            1 <= k < first_breach_through(a, b, min_h, min_v, n) ==> !breach_at(
                a,
                b,
                min_h,
                min_v,
                k,
            )),
    decreases n,
{
    if n >= 1 {
        lemma_first_breach_characterization(a, b, min_h, min_v, n - 1);
    }
}

/// Severity of a completed look-ahead, classified from the first-breach
/// time `tc` (`-1` = none), the squared minimum sampled horizontal
/// distance `md_sq` and the horizontal separation minimum `min_h`, with
/// strict ordered tie-breaks: no breach means no conflict however small
/// the miss distance was; otherwise either imminence or closeness alone
/// can escalate the level.
pub open spec fn severity_classification(tc: int, md_sq: int, min_h: int) -> ConflictSeverity {
    if tc < 0 {
        ConflictSeverity::NoConflict
    } else if tc < 30 || closer_than_scaled(md_sq, min_h, 1, 2) {
        ConflictSeverity::Critical
    } else if tc < 60 || closer_than_scaled(md_sq, min_h, 3, 4) {
        ConflictSeverity::Warning
    } else if tc < 120 || closer_than_scaled(md_sq, min_h, 1, 1) {
        ConflictSeverity::Advisory
    } else {
        ConflictSeverity::NoConflict
    }
}

/// Severity that a look-ahead over the sampled seconds `1, ..., n`
/// yields, with the minimum distance tracked from time zero.
pub open spec fn conflict_severity_spec(
    a: AircraftState,
    b: AircraftState,
    min_h: int,
    min_v: int,
    n: int,
) -> ConflictSeverity {
    severity_classification(
        first_breach_through(a, b, min_h, min_v, n),
        min_dist_sq_through(a, b, n),
        min_h,
    )
}

/// Executable form of `severity_classification`.
fn calculate_severity(time_to_conflict: i64, min_distance_sq: i128, separation_min: i64) -> (sev:
    ConflictSeverity)
    requires
        -MAX_SEPARATION_UNITS <= separation_min <= MAX_SEPARATION_UNITS,
        0 <= min_distance_sq,
        min_distance_sq <= 2 * sq(2 * MAX_DISTANCE_COORD_UNITS as int),
    ensures
        sev == severity_classification(
            time_to_conflict as int,
            min_distance_sq as int,
            separation_min as int,
        ),
{
    if time_to_conflict < 0 {
        return ConflictSeverity::NoConflict;
    }
    let sep: i128 = separation_min as i128;
    proof {
        assert(sep * sep == sq(separation_min as int) && 0 <= sep * sep && sep * sep
            <= 1_000_000_000_000_000_000_000_000) by (nonlinear_arith)
            requires
                sep == separation_min as int,
                -MAX_SEPARATION_UNITS <= sep <= MAX_SEPARATION_UNITS,
        ;
        assert(min_distance_sq <= 720_000_000_000_000_000_000_000) by (nonlinear_arith)
            requires
                min_distance_sq <= 2 * sq(2 * MAX_DISTANCE_COORD_UNITS as int),
        ;
    }
    let sep_sq: i128 = sep * sep;
    let positive: bool = separation_min > 0;
    if time_to_conflict < 30 || (positive && 4 * min_distance_sq < sep_sq) {
        ConflictSeverity::Critical
    } else if time_to_conflict < 60 || (positive && 16 * min_distance_sq < 9 * sep_sq) {
        ConflictSeverity::Warning
    } else if time_to_conflict < 120 || (positive && min_distance_sq < sep_sq) {
        ConflictSeverity::Advisory
    } else {
        ConflictSeverity::NoConflict
    }
}

/// Detects a potential conflict between two aircraft within a bounded
/// look-ahead window.
///
/// Both aircraft are simulated forward in one-second steps, each step
/// compounding a one-second prediction onto the previous predicted state
/// (in exact integer arithmetic this coincides with prediction from the
/// initial state). The sampled times run from one second up to and
/// including `look_ahead_time`. The smallest sampled horizontal distance
/// (the current positions at time zero included) is tracked over the
/// whole window, and the first sampled time at which both separation
/// minima are simultaneously violated is latched as the time to conflict;
/// later breaches never overwrite it. A violation of only one dimension
/// raises no conflict.
pub fn detect_conflict(
    aircraft1: &AircraftState,
    aircraft2: &AircraftState,
    horizontal_separation: i64,
    vertical_separation: i64,
    look_ahead_time: u64,
) -> (r: ConflictInfo)
    requires
        aircraft1.wf(),
        aircraft2.wf(),
        -MAX_SEPARATION_UNITS <= horizontal_separation <= MAX_SEPARATION_UNITS,
        look_ahead_time <= MAX_LOOKAHEAD_SECONDS,
    ensures
        r.time_to_conflict == first_breach_through(
            *aircraft1,
            *aircraft2,
            horizontal_separation as int,
            vertical_separation as int,
            look_ahead_time as int,
        ),
        -1 <= r.time_to_conflict <= look_ahead_time as int,
        r.time_to_conflict == -1 ==> forall|k: int|
            1 <= k <= look_ahead_time as int ==> !breach_at(
                *aircraft1,
                *aircraft2,
                horizontal_separation as int,
                vertical_separation as int,
                k,
            ),
        r.time_to_conflict >= 0 ==> breach_at(
            *aircraft1,
            *aircraft2,
            horizontal_separation as int,
            vertical_separation as int,
            r.time_to_conflict as int,
        ) && (forall|k: int|
            1 <= k < r.time_to_conflict as int ==> !breach_at(
                *aircraft1,
                *aircraft2,
                horizontal_separation as int,
                vertical_separation as int,
                k,
            )),
        r.severity == conflict_severity_spec(
            *aircraft1,
            *aircraft2,
            horizontal_separation as int,
            vertical_separation as int,
            look_ahead_time as int,
        ),
        sq(r.minimum_distance as int) <= min_dist_sq_through(
            *aircraft1,
            *aircraft2,
            look_ahead_time as int,
        ),
        min_dist_sq_through(*aircraft1, *aircraft2, look_ahead_time as int) < sq(
            r.minimum_distance as int + 1,
        ),
        r.minimum_distance >= 0,
{
    let ghost a: AircraftState = *aircraft1;
    let ghost b: AircraftState = *aircraft2;
    let ghost mh: int = horizontal_separation as int;
    let ghost mv: int = vertical_separation as int;

    let vd: i64 = calculate_vertical_distance(aircraft1, aircraft2);
    let mut min_sq: i128 = dist_sq_now(aircraft1, aircraft2);
    let mut conflict_time: i64 = -1;
    let hs: i128 = horizontal_separation as i128;
    proof {
        assert(hs * hs == sq(mh) && 0 <= hs * hs && hs * hs <= sq(MAX_SEPARATION_UNITS as int))
            by (nonlinear_arith)
            requires
                hs == horizontal_separation as int,
                mh == horizontal_separation as int,
                -MAX_SEPARATION_UNITS <= hs <= MAX_SEPARATION_UNITS,
        ;
    }
    let h_sq: i128 = hs * hs;

    let mut temp1: AircraftState = *aircraft1;
    let mut temp2: AircraftState = *aircraft2;
    let mut current_time: u64 = 1;

    while current_time <= look_ahead_time
        invariant
            a.wf(),
            b.wf(),
            a == *aircraft1,
            b == *aircraft2,
            mh == horizontal_separation as int,
            mv == vertical_separation as int,
            look_ahead_time <= MAX_LOOKAHEAD_SECONDS,
            1 <= current_time,
            current_time <= look_ahead_time + 1,
            temp1.x == crate::pos_x_at(a, current_time as int - 1),
            temp1.y == crate::pos_y_at(a, current_time as int - 1),
            temp1.vx == a.vx,
            temp1.vy == a.vy,
            temp2.x == crate::pos_x_at(b, current_time as int - 1),
            temp2.y == crate::pos_y_at(b, current_time as int - 1),
            temp2.vx == b.vx,
            temp2.vy == b.vy,
            vd == vert_dist(a, b),
            h_sq == sq(mh),
            min_sq == min_dist_sq_through(a, b, current_time as int - 1),
            0 <= min_sq,
            min_sq <= 2 * sq(2 * MAX_DISTANCE_COORD_UNITS as int),
            conflict_time == first_breach_through(a, b, mh, mv, current_time as int - 1),
            -1 <= conflict_time,
            conflict_time < current_time as int,
        decreases look_ahead_time + 1 - current_time,
    {
        proof {
            lemma_predicted_coord_bounded(a, current_time as int - 1);
            lemma_predicted_coord_bounded(b, current_time as int - 1);
            lemma_predicted_coord_bounded(a, current_time as int);
            lemma_predicted_coord_bounded(b, current_time as int);
            lemma_pos_at_step(a, current_time as int - 1);
            lemma_pos_at_step(b, current_time as int - 1);
        }
        temp1 = predict_position(&temp1, 1);
        temp2 = predict_position(&temp2, 1);

        let step_sq: i128 = dist_sq_now(&temp1, &temp2);
        proof {
            assert(step_sq == dist_sq_at(a, b, current_time as int));
        }
        if step_sq < min_sq {
            min_sq = step_sq;
        }
        if horizontal_separation > 0 && step_sq < h_sq && vd < vertical_separation {
            if conflict_time < 0 {
                conflict_time = current_time as i64;
            }
        }
        current_time = current_time + 1;
    }

    proof {
        lemma_first_breach_characterization(a, b, mh, mv, look_ahead_time as int);
    }
    let severity: ConflictSeverity = calculate_severity(
        conflict_time,
        min_sq,
        horizontal_separation,
    );
    let minimum_distance: i64 = dist_floor_sqrt(min_sq);
    ConflictInfo::new(severity, conflict_time, minimum_distance)
}

/// Two aircraft at the same point (position and altitude) register a
/// minimum distance of zero and a severity other than `NoConflict` over
/// any positive look-ahead, provided the separation minima are wide
/// enough to matter: the vertical minimum is positive and the horizontal
/// minimum exceeds the horizontal gap the pair can open by the first
/// sampled second.
/// Two aircraft at the same horizontal point, whatever their headings,
/// altitudes and speeds, register a minimum distance of exactly zero
/// over any window: the zero distance at time zero seeds the running
/// minimum and squared distances are never negative.
pub proof fn lemma_coincident_minimum_distance_zero(a: AircraftState, b: AircraftState, n: int)
    requires
        a.x == b.x,
        a.y == b.y,
    ensures
        min_dist_sq_through(a, b, n) == 0,
{
    assert(dist_sq_at(a, b, 0) == 0) by (nonlinear_arith)
        requires
            a.x == b.x,
            a.y == b.y,
    ;
    if n >= 0 {
        lemma_min_dist_sq_le_sample(a, b, n, 0);
    }
    lemma_min_dist_sq_nonneg(a, b, n);
}

pub proof fn lemma_coincident_states_conflict(
    a: AircraftState,
    b: AircraftState,
    min_h: int,
    min_v: int,
    n: int,
)
    requires
        a.x == b.x,
        a.y == b.y,
        a.altitude == b.altitude,
        min_h > 0,
        min_v > 0,
        dist_sq_at(a, b, 1) < sq(min_h),
        n >= 1,
    ensures
        min_dist_sq_through(a, b, n) == 0,
        first_breach_through(a, b, min_h, min_v, n) == 1,
        conflict_severity_spec(a, b, min_h, min_v, n) == ConflictSeverity::Critical,
        conflict_severity_spec(a, b, min_h, min_v, n) != ConflictSeverity::NoConflict,
    decreases n,
{
    lemma_coincident_minimum_distance_zero(a, b, n);
    assert(breach_at(a, b, min_h, min_v, 1));
    if n == 1 {
    } else {
        lemma_coincident_states_conflict(a, b, min_h, min_v, n - 1);
    }
}

/// The recommended avoidance heading given the bearing from the own ship
/// to the intruder: a fixed "turn 90 degrees right of the bearing"
/// heuristic, wrapped into `[0, FULL_CIRCLE)`. It does not evaluate which
/// direction is actually clear. All angles are centi-degrees.
pub fn avoidance_heading_from_bearing(bearing: i64) -> (h: i64)
    requires
        -FULL_CIRCLE <= bearing <= FULL_CIRCLE,
    ensures
        h == (bearing + 9_000) % (FULL_CIRCLE as int),
        0 <= h < FULL_CIRCLE,
{
    let mut h: i64 = bearing + 9_000;
    if h < 0 {
        h = h + FULL_CIRCLE;
    }
    if h >= FULL_CIRCLE {
        h = h - FULL_CIRCLE;
    }
    h
}

/// The state `s` steered onto a new heading with the matching velocity
/// components.
pub open spec fn with_guidance(s: AircraftState, heading: int, vx: int, vy: int) -> AircraftState {
    AircraftState {
        heading: heading as i64,
        vx: vx as i64,
        vy: vy as i64,
        ..s
    }
}

/// Checks whether steering `aircraft1` onto `new_heading` (whose velocity
/// decomposition the caller supplies as `new_vx`, `new_vy`) resolves the
/// conflict with `aircraft2`: the conflict check is re-run over a fixed
/// five-minute look-ahead and the resolution counts as effective exactly
/// when it reports no conflict.
pub fn is_resolution_effective(
    aircraft1: &AircraftState,
    aircraft2: &AircraftState,
    new_heading: i64,
    new_vx: i64,
    new_vy: i64,
    horizontal_separation: i64,
    vertical_separation: i64,
) -> (effective: bool)
    requires
        aircraft1.wf(),
        aircraft2.wf(),
        0 <= new_heading < FULL_CIRCLE,
        -MAX_VELOCITY_UNITS <= new_vx <= MAX_VELOCITY_UNITS,
        -MAX_VELOCITY_UNITS <= new_vy <= MAX_VELOCITY_UNITS,
        -MAX_SEPARATION_UNITS <= horizontal_separation <= MAX_SEPARATION_UNITS,
    ensures
        effective == (conflict_severity_spec(
            with_guidance(*aircraft1, new_heading as int, new_vx as int, new_vy as int),
            *aircraft2,
            horizontal_separation as int,
            vertical_separation as int,
            RESOLUTION_LOOKAHEAD_SECONDS as int,
        ) == ConflictSeverity::NoConflict),
{
    let mut modified: AircraftState = *aircraft1;
    modified.heading = new_heading;
    modified.vx = new_vx;
    modified.vy = new_vy;
    let conflict: ConflictInfo = detect_conflict(
        &modified,
        aircraft2,
        horizontal_separation,
        vertical_separation,
        RESOLUTION_LOOKAHEAD_SECONDS,
    );
    conflict.severity == ConflictSeverity::NoConflict
}

/// Look-ahead (seconds) over which a proposed resolution is evaluated:
/// five minutes.
pub const RESOLUTION_LOOKAHEAD_SECONDS: u64 = 300;

} // verus!
