//! A dial: one gauge whose needle traverses a random path inside its band
//! and, when scheduled, drifts out of it, firing an alarm exactly once per
//! drift-out episode.

use crate::path::all_wf;
use crate::path::chained;
use crate::path::drift_path_ok;
use crate::path::generate_random_dial_path;
use crate::path::wander_path_ok;
use crate::path::DialSpeed;
use crate::path::PathSegment;
use crate::path::MAX_SEGMENT_MS;
use crate::path::VALUE_LIMIT;
use crate::range::DialRange;
use std::collections::VecDeque;
use vstd::prelude::*;

verus! {

/// The value that has the needle point to the very end of the dial face.
pub const DIAL_MAX_VALUE: i64 = 10_000;

/// How long the needle flashes after an alarm is acknowledged, in
/// milliseconds.
pub const DIAL_FLASH_MS: i64 = 500;

/// How fast the needle keeps drifting, in dial units per second, once a
/// drift-out path has been fully consumed.
pub const OUT_DRIFT_UNITS_PER_SEC: i64 = 400;

/// The largest single time step an update may take, in milliseconds.
pub const MAX_DELTA_MS: i64 = 60_000;

/// The mathematical state of a dial, as seen by specifications.
pub struct DialV {
    /// The current needle value.
    pub value: int,
    /// The dial's name, its identity.
    pub name: Seq<char>,
    /// The band the needle is supposed to stay inside.
    pub in_range: DialRange,
    /// The remaining path segments, front first.
    pub path: Seq<PathSegment>,
    /// Whether the dial wanders indefinitely or is scheduled to drift out.
    pub is_wandering: bool,
    /// Time into the front path segment, in milliseconds.
    pub segment_time: int,
    /// +1 or -1: the direction the needle was last travelling.
    pub travel_direction: int,
    /// Milliseconds of needle flash left, if the needle is flashing.
    pub flash_remaining: Option<int>,
    /// The dial's movement speed.
    pub speed: DialSpeed,
    /// Whether this dial's alarm has fired since the last reset.
    pub alarm_fired: bool,
}

/// Clamps a needle value to the representable limit.
pub open spec fn clamp_value(v: int) -> int {
    if v > VALUE_LIMIT {
        VALUE_LIMIT as int
    } else if v < -VALUE_LIMIT {
        -VALUE_LIMIT as int
    } else {
        v
    }
}

/// How far the needle drifts linearly in `dt` milliseconds once its path
/// is exhausted.
pub open spec fn drift_amount(dt: int) -> int {
    (OUT_DRIFT_UNITS_PER_SEC * dt) / 1000
}

/// The needle-motion part of one update step: advance time into the front
/// segment and take the value from its ease curve; pop the segment once it
/// is over, capturing its travel direction; with no path left, keep
/// drifting linearly in the captured direction.
pub open spec fn dial_motion(d: DialV, dt: int) -> DialV {
    let t = d.segment_time + dt;
    if d.path.len() > 0 {
        let front = d.path[0];
        if t <= front.duration_ms {
            DialV { value: front.spec_value_at(t), segment_time: t, ..d }
        } else {
            DialV {
                path: d.path.drop_first(),
                segment_time: 0,
                travel_direction: front.spec_travel_direction(),
                ..d
            }
        }
    } else {
        DialV { value: clamp_value(d.value + d.travel_direction * drift_amount(dt)), ..d }
    }
}

/// Ticks the flash timer down, clearing it when it runs out.
pub open spec fn flash_step(flash: Option<int>, dt: int) -> Option<int> {
    match flash {
        Option::Some(r) => if r - dt < 0 {
            Option::None
        } else {
            Option::Some(r - dt)
        },
        Option::None => Option::None,
    }
}

/// Whether one update step of `dt` milliseconds makes the dial fire its
/// alarm: the needle ends the step outside the band while the alarm has
/// not fired since the last reset.
pub open spec fn dial_fires(d: DialV, dt: int) -> bool {
    !d.alarm_fired && !d.in_range.spec_contains(dial_motion(d, dt).value)
}

/// One full update step: needle motion, the flash timer, and the
/// check-then-latch of the alarm flag.
pub open spec fn dial_step(d: DialV, dt: int) -> DialV {
    let m = dial_motion(d, dt);
    DialV {
        flash_remaining: flash_step(d.flash_remaining, dt),
        alarm_fired: d.alarm_fired || !d.in_range.spec_contains(m.value),
        ..m
    }
}

/// Represents a dial inside the experiment model.
#[derive(Debug, Clone)]
pub struct Dial {
    /// The current value of the dial, where the needle is pointing.
    value: i64,
    /// The name of this dial.
    name: String,
    /// The in-range for this dial: where the needle is supposed to be.
    in_range: DialRange,
    /// This dial's random path segments, traversed front first.
    path: VecDeque<PathSegment>,
    /// If this dial is wandering in its range or scheduled to drift out.
    is_wandering: bool,
    /// The current time into the current path segment, in milliseconds.
    segment_time: i64,
    /// The current direction of travel in the path segment: +1 or -1.
    travel_direction: i64,
    /// The remaining time to flash the dial needle for, if flashing.
    flash_time_remaining: Option<i64>,
    /// The movement speed of this dial.
    speed: DialSpeed,
    /// Whether the alarm has fired since the last reset.
    alarm_fired: bool,
}

impl View for Dial {
    type V = DialV;

    closed spec fn view(&self) -> DialV {
        DialV {
            value: self.value as int,
            name: self.name@,
            in_range: self.in_range,
            path: self.path@,
            is_wandering: self.is_wandering,
            segment_time: self.segment_time as int,
            travel_direction: self.travel_direction as int,
            flash_remaining: match self.flash_time_remaining {
                Option::Some(r) => Option::Some(r as int),
                Option::None => Option::None,
            },
            speed: self.speed,
            alarm_fired: self.alarm_fired,
        }
    }
}

impl DialV {
    /// A well-formed dial state; established by the constructor and kept
    /// by every update and reset.
    pub open spec fn wf(self) -> bool {
        &&& self.in_range.wf()
        &&& -VALUE_LIMIT <= self.value <= VALUE_LIMIT
        &&& all_wf(self.path)
        &&& (self.travel_direction == 1 || self.travel_direction == -1)
        &&& (self.path.len() > 0 ==> 0 <= self.segment_time <= self.path[0].duration_ms)
        &&& (self.path.len() == 0 ==> self.segment_time == 0)
        &&& match self.flash_remaining {
            Option::Some(r) => 0 <= r <= DIAL_FLASH_MS,
            Option::None => true,
        }
    }
}

/// What a reset promises, relating the state before to the state after:
/// the alarm flag and segment clock are cleared, identity and band are
/// kept, and a fresh path of the requested kind is in place.
pub open spec fn reset_post(pre: DialV, post: DialV, drift_out_time: Option<int>) -> bool {
    &&& post.name == pre.name
    &&& post.in_range == pre.in_range
    &&& post.speed == pre.speed
    &&& post.flash_remaining == pre.flash_remaining
    &&& post.travel_direction == pre.travel_direction
    &&& post.value == pre.value
    &&& post.segment_time == 0
    &&& !post.alarm_fired
    &&& post.is_wandering == drift_out_time.is_none()
    &&& all_wf(post.path)
    &&& chained(post.path)
    &&& post.path.len() >= 1
    &&& match drift_out_time {
        Option::None => wander_path_ok(post.in_range, post.path, post.speed) && post.path[0].start
            == post.in_range.start + (post.in_range.end - post.in_range.start) / 2,
        Option::Some(t) => drift_path_ok(post.in_range, post.path, post.speed, t)
            && post.path[0].start == pre.value,
    }
}

impl Dial {
    /// Creates a new dial with the provided name, in-range band and speed.
    /// The needle starts in the middle of the band, wandering.
    pub fn new(name: String, in_range: DialRange, speed: DialSpeed) -> (dial: Dial)
        requires
            in_range.wf(),
        ensures
            dial@.wf(),
            dial@.name == name@,
            dial@.in_range == in_range,
            dial@.speed == speed,
            dial@.value == in_range.start + (in_range.end - in_range.start) / 2,
            dial@.is_wandering,
            !dial@.alarm_fired,
            dial@.segment_time == 0,
            dial@.flash_remaining is None,
            wander_path_ok(in_range, dial@.path, speed),
            chained(dial@.path),
            dial@.path[0].start == dial@.value,
    {
        let middle = in_range.middle();
        let path = generate_random_dial_path(&in_range, middle, Option::None, speed);
        Dial {
            value: middle,
            name,
            in_range,
            path,
            is_wandering: true,
            segment_time: 0,
            travel_direction: 1,
            flash_time_remaining: Option::None,
            speed,
            alarm_fired: false,
        }
    }

    /// Resets the dial: clears the alarm, restarts the segment clock and
    /// regenerates the path. With a drift-out time the new path is built to
    /// leave the range exactly then; without one the dial wanders forever,
    /// its fresh path starting from the middle of the band.
    pub fn reset(&mut self, drift_out_time: Option<i64>)
        requires
            old(self)@.wf(),
            drift_out_time matches Some(t) ==> 0 <= t <= MAX_SEGMENT_MS,
        ensures
            final(self)@.wf(),
            reset_post(
                old(self)@,
                final(self)@,
                match drift_out_time {
                    Option::Some(t) => Option::Some(t as int),
                    Option::None => Option::None,
                },
            ),
    {
        self.segment_time = 0;
        self.alarm_fired = false;
        match drift_out_time {
            Option::Some(t) => {
                self.is_wandering = false;
                self.path = generate_random_dial_path(
                    &self.in_range,
                    self.value,
                    Option::Some(t),
                    self.speed,
                );
            },
            Option::None => {
                self.is_wandering = true;
                let middle = self.in_range.middle();
                self.path = generate_random_dial_path(
                    &self.in_range,
                    middle,
                    Option::None,
                    self.speed,
                );
            },
        }
    }

    /// Updates the dial by the amount of time that has passed since the
    /// last update. Returns whether the dial has just fired its alarm:
    /// true at most once between two resets.
    pub fn update(&mut self, delta_ms: i64) -> (fired: bool)
        requires
            old(self)@.wf(),
            0 <= delta_ms <= MAX_DELTA_MS,
        ensures
            final(self)@.wf(),
            final(self)@ == dial_step(old(self)@, delta_ms as int),
            fired == dial_fires(old(self)@, delta_ms as int),
    {
        let t = self.segment_time + delta_ms;

        if self.path.len() > 0 {
            let front = self.path[0];
            if front.in_segment(t) {
                self.value = front.value_at_time(t);
                self.segment_time = t;
            } else {
                self.travel_direction = front.travel_direction();
                self.path.pop_front();
                self.segment_time = 0;
            }
        } else {
            let drift = (OUT_DRIFT_UNITS_PER_SEC * delta_ms) / 1000;
            let raw = self.value + self.travel_direction * drift;
            self.value = if raw > VALUE_LIMIT {
                VALUE_LIMIT
            } else if raw < -VALUE_LIMIT {
                -VALUE_LIMIT
            } else {
                raw
            };
        }

        if let Option::Some(remaining) = self.flash_time_remaining {
            let next = remaining - delta_ms;
            self.flash_time_remaining = if next < 0 {
                Option::None
            } else {
                Option::Some(next)
            };
        }

        let fired = !self.alarm_fired && !self.in_range.contains(self.value);
        if fired {
            self.alarm_fired = true;
        }
        fired
    }

    /// The value of the dial: where the needle currently points.
    pub fn value(&self) -> (r: i64)
        ensures
            r == self@.value,
    {
        self.value
    }

    /// The in-range band of this dial.
    pub fn in_range(&self) -> (r: DialRange)
        ensures
            r == self@.in_range,
    {
        self.in_range
    }

    /// The unique name of this dial.
    pub fn name(&self) -> (r: &String)
        ensures
            r@ == self@.name,
    {
        &self.name
    }

    /// If the dial is wandering, or was told to drift out.
    pub fn is_wandering(&self) -> (r: bool)
        ensures
            r == self@.is_wandering,
    {
        self.is_wandering
    }

    /// Whether this dial's alarm has fired since the last reset.
    pub fn alarm_fired(&self) -> (r: bool)
        ensures
            r == self@.alarm_fired,
    {
        self.alarm_fired
    }

    /// Tells the dial to begin flashing its needle.
    pub fn flash(&mut self)
        requires
            old(self)@.wf(),
        ensures
            final(self)@.wf(),
            final(self)@ == (DialV { flash_remaining: Option::Some(DIAL_FLASH_MS as int), ..old(self)@ }),
    {
        self.flash_time_remaining = Option::Some(DIAL_FLASH_MS);
    }

    /// If the dial needle is flashing in response to an acknowledgment.
    pub fn is_flashing(&self) -> (r: bool)
        ensures
            r == self@.flash_remaining.is_some(),
    {
        self.flash_time_remaining.is_some()
    }
}

/// A dial whose remaining path keeps both endpoints of every segment
/// inside the band — as every wander path does — keeps its needle inside
/// the band under one update step and does not fire, as long as a segment
/// remains: the needle only ever sits on the ease curve between two
/// in-range endpoints, and consuming a finished segment leaves the needle
/// where it was.
pub proof fn lemma_wandering_stays_in_range(d: DialV, dt: int)
    requires
        d.wf(),
        d.path.len() > 0,
        forall|i: int|
            0 <= i < d.path.len() ==> crate::path::seg_in_range(d.in_range, #[trigger] d.path[i]),
        d.in_range.spec_contains(d.value),
        0 <= dt,
    ensures
        ({
            let d2 = dial_step(d, dt);
            &&& d2.in_range.spec_contains(d2.value)
            &&& !dial_fires(d, dt)
            &&& d2.alarm_fired == d.alarm_fired
            &&& forall|i: int|
                0 <= i < d2.path.len() ==> crate::path::seg_in_range(
                    d2.in_range,
                    #[trigger] d2.path[i],
                )
        }),
{
    let t = d.segment_time + dt;
    let front = d.path[0];
    if t <= front.duration_ms {
        crate::path::lemma_segment_stays_in_range(d.in_range, front, t);
    } else {
        assert forall|i: int|
            0 <= i < d.path.drop_first().len() implies crate::path::seg_in_range(
            d.in_range,
            #[trigger] d.path.drop_first()[i],
        ) by {
            assert(d.path.drop_first()[i] == d.path[i + 1]);
        }
    }
}

/// Once a drift-out path has been fully consumed, the needle keeps moving
/// away from the range and never re-enters it: a dial whose value is
/// outside its band with an empty path and an outward travel direction
/// stays outside under every further update step, absent a reset.
pub proof fn lemma_drift_stays_out(d: DialV, dt: int)
    requires
        d.wf(),
        d.path.len() == 0,
        0 <= dt,
        d.value > d.in_range.end && d.travel_direction == 1 || d.value < d.in_range.start
            && d.travel_direction == -1,
    ensures
        ({
            let d2 = dial_step(d, dt);
            &&& d2.path.len() == 0
            &&& d2.travel_direction == d.travel_direction
            &&& d2.in_range == d.in_range
            &&& !d2.in_range.spec_contains(d2.value)
            &&& d2.value > d2.in_range.end && d2.travel_direction == 1 || d2.value
                < d2.in_range.start && d2.travel_direction == -1
            &&& d2.wf()
        }),
{
    vstd::arithmetic::div_mod::lemma_div_pos_is_pos(OUT_DRIFT_UNITS_PER_SEC * dt, 1000);
    assert(OUT_DRIFT_UNITS_PER_SEC * dt >= 0) by (nonlinear_arith)
        requires
            dt >= 0,
    ;
}

/// The alarm flag only latches: once fired it stays set until a reset, and
/// a step fires exactly when it moves the flag from clear to set.
pub proof fn lemma_alarm_latches(d: DialV, dt: int)
    ensures
        d.alarm_fired ==> dial_step(d, dt).alarm_fired,
        d.alarm_fired ==> !dial_fires(d, dt),
        dial_fires(d, dt) ==> !d.alarm_fired && dial_step(d, dt).alarm_fired,
{
}

/// The dial state reached by applying a sequence of update steps in order.
pub open spec fn run_dial(d: DialV, deltas: Seq<int>) -> DialV
    decreases deltas.len(),
{
    if deltas.len() == 0 {
        d
    } else {
        run_dial(dial_step(d, deltas[0]), deltas.drop_first())
    }
}

/// How many of the update steps in `deltas` fire the alarm.
pub open spec fn fire_count(d: DialV, deltas: Seq<int>) -> int
    decreases deltas.len(),
{
    if deltas.len() == 0 {
        0
    } else {
        (if dial_fires(d, deltas[0]) {
            1int
        } else {
            0int
        }) + fire_count(dial_step(d, deltas[0]), deltas.drop_first())
    }
}

/// A dial whose alarm has already fired never fires again, however many
/// update steps follow, until a reset clears the flag.
pub proof fn lemma_no_fire_after_latch(d: DialV, deltas: Seq<int>)
    requires
        d.alarm_fired,
    ensures
        fire_count(d, deltas) == 0,
        run_dial(d, deltas).alarm_fired,
    decreases deltas.len(),
{
    if deltas.len() > 0 {
        lemma_no_fire_after_latch(dial_step(d, deltas[0]), deltas.drop_first());
    }
}

/// Between two resets the alarm fires at most once: over any sequence of
/// update steps, at most one step reports a firing, and exactly one alarm
/// event is emitted per clear-to-set transition of the flag.
pub proof fn lemma_single_fire(d: DialV, deltas: Seq<int>)
    ensures
        fire_count(d, deltas) <= 1,
        d.alarm_fired ==> fire_count(d, deltas) == 0,
    decreases deltas.len(),
{
    if deltas.len() > 0 {
        let next = dial_step(d, deltas[0]);
        if dial_fires(d, deltas[0]) {
            lemma_no_fire_after_latch(next, deltas.drop_first());
        } else {
            lemma_single_fire(next, deltas.drop_first());
        }
        if d.alarm_fired {
            lemma_no_fire_after_latch(d, deltas);
        }
    }
}

/// Resetting twice in a row with the same argument leaves the dial in a
/// state a single reset could have produced: reset is idempotent, up to
/// the fresh random path.
pub proof fn lemma_reset_idempotent(d0: DialV, d1: DialV, d2: DialV, drift_out_time: Option<int>)
    requires
        reset_post(d0, d1, drift_out_time),
        reset_post(d1, d2, drift_out_time),
    ensures
        reset_post(d0, d2, drift_out_time),
{
}

} // verus!
