//! Aircraft state tracking: sample-to-sample change computation, a bounded
//! per-aircraft history kept in a fixed-capacity ring buffer, and
//! normal-operating-parameter checks.

use vstd::prelude::*;

verus! {

use crate::{AircraftState, FULL_CIRCLE, MAX_SPEED_UNITS};

/// Half a circle, centi-degrees.
pub const HALF_CIRCLE: i64 = 18_000;

/// A heading difference folded into `[-HALF_CIRCLE, HALF_CIRCLE]` by
/// repeatedly shifting whole circles, exactly as the executable
/// normalization does (so a difference of exactly half a circle keeps its
/// sign).
pub open spec fn norm_heading_diff(d: int) -> int
    decreases vstd::math::abs(d),
{
    if d > HALF_CIRCLE as int {
        norm_heading_diff(d - FULL_CIRCLE as int)
    } else if d < -HALF_CIRCLE as int {
        norm_heading_diff(d + FULL_CIRCLE as int)
    } else {
        d
    }
}

/// Folds a heading difference (centi-degrees) into
/// `[-HALF_CIRCLE, HALF_CIRCLE]`, congruent modulo a full circle.
pub fn normalize_heading_diff(diff: i64) -> (r: i64)
    ensures
        r == norm_heading_diff(diff as int),
        -HALF_CIRCLE <= r <= HALF_CIRCLE,
{
    let mut result: i64 = diff;
    while result > HALF_CIRCLE
        invariant
            norm_heading_diff(result as int) == norm_heading_diff(diff as int),
            result == diff || result > -HALF_CIRCLE,
        decreases result + HALF_CIRCLE,
    {
        result = result - FULL_CIRCLE;
    }
    while result < -HALF_CIRCLE
        invariant
            norm_heading_diff(result as int) == norm_heading_diff(diff as int),
            result <= HALF_CIRCLE,
        decreases HALF_CIRCLE - result,
    {
        result = result + FULL_CIRCLE;
    }
    result
}

/// The change between two consecutive samples of one aircraft: heading in
/// centi-degrees (folded to the nearest direction), speed in centi-knots,
/// altitude in centi-feet.
#[derive(Debug, Clone, Copy)]
pub struct StateChange {
    pub heading_change: i64,
    pub speed_change: i64,
    pub altitude_change: i64,
}

/// Change magnitudes beyond which a sample-to-sample change counts as
/// significant: one degree, five knots, one hundred feet.
pub open spec fn significant_change(c: StateChange) -> bool {
    vstd::math::abs(c.heading_change as int) > 100 || vstd::math::abs(c.speed_change as int) > 500
        || vstd::math::abs(c.altitude_change as int) > 10_000
}

impl StateChange {
    /// The zero change.
    pub fn new() -> (c: StateChange)
        ensures
            c.heading_change == 0,
            c.speed_change == 0,
            c.altitude_change == 0,
    {
        StateChange { heading_change: 0, speed_change: 0, altitude_change: 0 }
    }

    /// The change from `previous` to `current`.
    pub fn calculate(previous: &AircraftState, current: &AircraftState) -> (c: StateChange)
        requires
            previous.wf(),
            current.wf(),
        ensures
            c.heading_change == norm_heading_diff(current.heading - previous.heading),
            c.speed_change == current.speed - previous.speed,
            c.altitude_change == current.altitude - previous.altitude,
    {
        StateChange {
            heading_change: normalize_heading_diff(current.heading - previous.heading),
            speed_change: current.speed - previous.speed,
            altitude_change: current.altitude - previous.altitude,
        }
    }

    /// Whether any of the three changes exceeds its significance
    /// threshold.
    pub fn is_significant(&self) -> (r: bool)
        ensures
            r == significant_change(*self),
    {
        (self.heading_change > 100 || self.heading_change < -100) || (self.speed_change > 500
            || self.speed_change < -500) || (self.altitude_change > 10_000 || self.altitude_change
            < -10_000)
    }
}

/// Sum of the speeds of a run of samples, centi-knots.
pub open spec fn sum_speed(s: Seq<AircraftState>) -> int
    decreases s.len(),
{
    if s.len() == 0 {
        0
    } else {
        sum_speed(s.drop_last()) + s.last().speed
    }
}

/// A bounded per-aircraft history of recent samples: a fixed-capacity ring
/// buffer that keeps the last `max_history` samples added, oldest first.
#[derive(Debug, Clone)]
pub struct StateHistory {
    states: Vec<AircraftState>,
    start: usize,
    max_history: usize,
}

impl StateHistory {
    /// How many samples the history retains at most.
    pub closed spec fn capacity(self) -> int {
        self.max_history as int
    }

    /// The retained samples, oldest first: the buffer read circularly
    /// from `start`.
    pub closed spec fn history(self) -> Seq<AircraftState> {
        self.states@.subrange(self.start as int, self.states@.len() as int) + self.states@.subrange(
            0,
            self.start as int,
        )
    }

    /// Ring-buffer shape: the buffer only fills up to the capacity, the
    /// split index is meaningful only once it is full, and every retained
    /// sample is within the engine's bounds.
    pub closed spec fn wf(self) -> bool {
        &&& self.states@.len() <= self.max_history
        &&& (self.states@.len() < self.max_history ==> self.start == 0)
        &&& (self.start < self.states@.len() || self.start == 0)
        &&& forall|i: int| 0 <= i < self.states@.len() ==> self.states@[i].wf()
    }

    /// An empty history retaining at most `max_history` samples.
    pub fn new(max_history: usize) -> (h: StateHistory)
        ensures
            h.wf(),
            h.capacity() == max_history as int,
            h.history() == Seq::<AircraftState>::empty(),
    {
        let h = StateHistory { states: Vec::new(), start: 0, max_history };
        proof {
            assert(h.history() =~= Seq::<AircraftState>::empty());
        }
        h
    }

    /// Number of retained samples.
    pub fn len(&self) -> (n: usize)
        requires
            self.wf(),
        ensures
            n == self.history().len(),
    {
        self.states.len()
    }

    /// Appends a sample, discarding the oldest retained one once the
    /// capacity is reached (with capacity zero nothing is ever retained).
    pub fn add_state(&mut self, state: AircraftState)
        requires
            old(self).wf(),
            state.wf(),
        ensures
            final(self).wf(),
            final(self).capacity() == old(self).capacity(),
            final(self).history() == (if old(self).history().len() < old(self).capacity() {
                old(self).history().push(state)
            } else if old(self).capacity() > 0 {
                old(self).history().drop_first().push(state)
            } else {
                Seq::<AircraftState>::empty()
            }),
    {
        if self.states.len() < self.max_history {
            self.states.push(state);
            proof {
                assert(self.history() =~= old(self).history().push(state));
            }
        } else if self.max_history > 0 {
            let i: usize = self.start;
            self.states[i] = state;
            self.start = if i + 1 == self.max_history {
                0
            } else {
                i + 1
            };
            proof {
                assert(self.history() =~= old(self).history().drop_first().push(state));
            }
        } else {
            proof {
                assert(self.history() =~= Seq::<AircraftState>::empty());
            }
        }
    }

    /// The most recent sample, if any.
    pub fn get_latest(&self) -> (r: Option<&AircraftState>)
        requires
            self.wf(),
        ensures
            (r is None) == (self.history().len() == 0),
            r matches Some(s) ==> *s == self.history().last(),
    {
        if self.states.len() == 0 {
            None
        } else {
            let idx: usize = if self.start == 0 {
                self.states.len() - 1
            } else {
                self.start - 1
            };
            proof {
                assert(self.history().last() == self.states@[idx as int]);
            }
            Some(&self.states[idx])
        }
    }

    /// The sample before the most recent one, if at least two are
    /// retained.
    pub fn get_previous(&self) -> (r: Option<&AircraftState>)
        requires
            self.wf(),
        ensures
            (r is None) == (self.history().len() < 2),
            r matches Some(s) ==> *s == self.history()[self.history().len() - 2],
    {
        if self.states.len() < 2 {
            None
        } else {
            let idx: usize = if self.start >= 2 {
                self.start - 2
            } else {
                self.start + (self.states.len() - 2)
            };
            proof {
                assert(self.history()[self.history().len() - 2] == self.states@[idx as int]);
            }
            Some(&self.states[idx])
        }
    }

    /// Mean speed of the retained samples (centi-knots, floor of the
    /// exact mean), or nothing for an empty history.
    pub fn calculate_average_speed(&self) -> (avg: Option<i64>)
        requires
            self.wf(),
        ensures
            (avg is None) == (self.history().len() == 0),
            avg matches Some(v) ==> v == sum_speed(self.history()) / (self.history().len() as int),
    {
        let n: usize = self.states.len();
        if n == 0 {
            return None;
        }
        let mut sum: i128 = 0;
        let mut i: usize = 0;
        while i < n
            invariant
                self.wf(),
                i <= n,
                n == self.states@.len(),
                n >= 1,
                sum == sum_speed(self.history().take(i as int)),
                0 <= sum,
                sum <= (i as int) * (MAX_SPEED_UNITS as int),
            decreases n - i,
        {
            let idx: usize = if i < n - self.start {
                self.start + i
            } else {
                i - (n - self.start)
            };
            proof {
                assert(self.history()[i as int] == self.states@[idx as int]);
                assert(self.history().take(i as int + 1).drop_last() =~= self.history().take(
                    i as int,
                ));
            }
            sum = sum + self.states[idx].speed as i128;
            i = i + 1;
        }
        proof {
            assert(self.history().take(n as int) =~= self.history());
            assert(sum as int / (n as int) <= MAX_SPEED_UNITS as int && sum as int / (n as int)
                >= 0) by (nonlinear_arith)
                requires
                    0 <= sum,
                    sum <= (n as int) * (MAX_SPEED_UNITS as int),
                    n >= 1,
            ;
        }
        let avg: i64 = ((sum as u128) / (n as u128)) as i64;
        Some(avg)
    }

    /// Whether the two most recent samples differ by less than `threshold`
    /// in heading (centi-degrees) and speed (centi-knots) and by less than
    /// ten times `threshold` in altitude (centi-feet). A history with
    /// fewer than two samples counts as stable.
    pub fn is_stable(&self, threshold: i64) -> (r: bool)
        requires
            self.wf(),
        ensures
            r == stable_history(self.history(), threshold as int),
    {
        let n: usize = self.states.len();
        if n < 2 {
            return true;
        }
        if threshold <= 0 {
            return false;
        }
        let latest_idx: usize = if self.start == 0 {
            n - 1
        } else {
            self.start - 1
        };
        let previous_idx: usize = if self.start >= 2 {
            self.start - 2
        } else {
            self.start + (n - 2)
        };
        proof {
            assert(self.history().last() == self.states@[latest_idx as int]);
            assert(self.history()[self.history().len() - 2] == self.states@[previous_idx as int]);
        }
        let latest: AircraftState = self.states[latest_idx];
        let previous: AircraftState = self.states[previous_idx];
        let change: StateChange = StateChange::calculate(&previous, &latest);
        (change.heading_change < threshold && change.heading_change > -threshold) && (
        change.speed_change < threshold && change.speed_change > -threshold) && (
        (change.altitude_change as i128) < (threshold as i128) * 10 && (
        change.altitude_change as i128) > -((threshold as i128) * 10))
    }
}

/// The stability criterion `StateHistory::is_stable` decides, over the
/// retained samples.
pub open spec fn stable_history(hist: Seq<AircraftState>, threshold: int) -> bool {
    if hist.len() < 2 {
        true
    } else {
        let previous = hist[hist.len() - 2];
        let latest = hist.last();
        &&& vstd::math::abs(norm_heading_diff(latest.heading - previous.heading)) < threshold
        &&& vstd::math::abs(latest.speed - previous.speed) < threshold
        &&& vstd::math::abs(latest.altitude - previous.altitude) < threshold * 10
    }
}

/// Whether a snapshot is within normal operating parameters: altitude in
/// `[0 ft, 60_000 ft]`, speed in `[100 kt, 600 kt]`, heading in
/// `[0, 360)` degrees (all in engine units).
pub open spec fn state_normal(s: AircraftState) -> bool {
    &&& 0 <= s.altitude <= 6_000_000
    &&& 10_000 <= s.speed <= 60_000
    &&& 0 <= s.heading < FULL_CIRCLE as int
}

/// Checks whether a snapshot is within normal operating parameters.
pub fn is_state_normal(aircraft: &AircraftState) -> (r: bool)
    ensures
        r == state_normal(*aircraft),
{
    if aircraft.altitude < 0 || aircraft.altitude > 6_000_000 {
        return false;
    }
    if aircraft.speed < 10_000 || aircraft.speed > 60_000 {
        return false;
    }
    if aircraft.heading < 0 || aircraft.heading >= FULL_CIRCLE {
        return false;
    }
    true
}

/// Integer rate: the change per second truncated toward zero, matching
/// the sign of the change.
pub open spec fn rate_trunc(change: int, seconds: int) -> int {
    if change >= 0 {
        change / seconds
    } else {
        -((-change) / seconds)
    }
}

/// Per-second rates of change of heading (centi-degrees), speed
/// (centi-knots) and altitude (centi-feet) between two samples taken
/// `time_delta` seconds apart, each truncated toward zero.
pub fn calculate_rate_of_change(
    previous: &AircraftState,
    current: &AircraftState,
    time_delta: i64,
) -> (rates: (i64, i64, i64))
    requires
        previous.wf(),
        current.wf(),
        time_delta >= 1,
    ensures
        rates.0 == rate_trunc(norm_heading_diff(current.heading - previous.heading), time_delta as int),
        rates.1 == rate_trunc(current.speed - previous.speed, time_delta as int),
        rates.2 == rate_trunc(current.altitude - previous.altitude, time_delta as int),
{
    let heading_diff: i64 = normalize_heading_diff(current.heading - previous.heading);
    let heading_rate: i64 = div_trunc(heading_diff, time_delta);
    let speed_rate: i64 = div_trunc(current.speed - previous.speed, time_delta);
    let altitude_rate: i64 = div_trunc(current.altitude - previous.altitude, time_delta);
    (heading_rate, speed_rate, altitude_rate)
}

/// Signed division truncating toward zero, on magnitudes small enough
/// that negation cannot overflow.
fn div_trunc(value: i64, divisor: i64) -> (q: i64)
    requires
        divisor >= 1,
        value > i64::MIN,
    ensures
        q == rate_trunc(value as int, divisor as int),
{
    if value >= 0 {
        ((value as u64) / (divisor as u64)) as i64
    } else {
        let magnitude: u64 = (-value) as u64;
        -((magnitude / (divisor as u64)) as i64)
    }
}

/// The rate limits beyond which a change between samples counts as
/// unusual: 5 degrees per second of turn, 20 knots per second of
/// acceleration, 3000 feet per minute (50 feet per second) of climb or
/// descent — as exact comparisons of the real-valued rates, stated by
/// cross-multiplication.
pub open spec fn unusual_change(prev: AircraftState, curr: AircraftState, seconds: int) -> bool {
    vstd::math::abs(norm_heading_diff(curr.heading - prev.heading)) > 500 * seconds
        || vstd::math::abs(curr.speed - prev.speed) > 2_000 * seconds || vstd::math::abs(
        curr.altitude - prev.altitude,
    ) > 5_000 * seconds
}

/// Detects physically implausible changes between two samples taken
/// `time_delta` seconds apart, by holding each change against its rate
/// limit exactly (no rounding: `|change| / t > limit` is evaluated as
/// `|change| > limit * t`).
pub fn detect_unusual_changes(
    previous: &AircraftState,
    current: &AircraftState,
    time_delta: i64,
) -> (r: bool)
    requires
        previous.wf(),
        current.wf(),
        time_delta >= 1,
    ensures
        r == unusual_change(*previous, *current, time_delta as int),
{
    let heading_diff: i64 = normalize_heading_diff(current.heading - previous.heading);
    let dt: i128 = time_delta as i128;
    let hd: i128 = heading_diff as i128;
    let sd: i128 = (current.speed - previous.speed) as i128;
    let ad: i128 = (current.altitude - previous.altitude) as i128;
    (hd > 500 * dt || hd < -(500 * dt)) || (sd > 2_000 * dt || sd < -(2_000 * dt)) || (ad > 5_000
        * dt || ad < -(5_000 * dt))
}

} // verus!
