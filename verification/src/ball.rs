//! The tracking task's ball: a player-steered object that drifts with a
//! randomly redirected velocity, bounces off the walls, and whose distance
//! from the centre crosshair is the tracking-error metric.
//!
//! Coordinates are fixed point: the screen square spans -1000 to 1000
//! thousandths per axis, velocities are in thousandths per second, and all
//! times are milliseconds.

use crate::path::MAX_SEGMENT_MS;
use crate::rng::rand_i64_between;
use vstd::prelude::*;

verus! {

/// The ball's radius, in thousandths of the half-screen.
pub const BALL_RADIUS: i64 = 30;

/// Speed of a slow ball, in thousandths per second.
pub const BALL_SLOW_VELOCITY: i64 = 300;

/// Speed of a medium ball, in thousandths per second.
pub const BALL_MEDIUM_VELOCITY: i64 = 600;

/// Speed of a fast ball, in thousandths per second.
pub const BALL_FAST_VELOCITY: i64 = 1200;

/// How strongly a full input deflection nudges the ball, in thousandths
/// per second.
pub const BALL_NUDGE_RATE: i64 = 1200;

/// The largest single time step a ball update may take, in milliseconds.
pub const BALL_MAX_DELTA_MS: i64 = 60_000;

/// The number of evenly spaced compass directions a redirected ball can
/// choose from.
pub const DIRECTION_COUNT: i64 = 16;

/// Three velocities for the ball; slow is the default and the easiest to
/// handle, the others are kept for freedom in future studies.
#[derive(Debug, Clone, Copy, PartialEq, Eq, Structural)]
pub enum BallVelocity {
    /// Slowest ball movement, the default.
    Slow,
    /// Medium ball movement.
    Medium,
    /// Fastest ball movement.
    Fast,
}

impl BallVelocity {
    /// The speed this setting stands for, in thousandths per second.
    pub open spec fn spec_speed(self) -> int {
        match self {
            BallVelocity::Slow => BALL_SLOW_VELOCITY as int,
            BallVelocity::Medium => BALL_MEDIUM_VELOCITY as int,
            BallVelocity::Fast => BALL_FAST_VELOCITY as int,
        }
    }

    /// Returns the speed this setting stands for.
    pub fn speed(self) -> (r: i64)
        ensures
            r == self.spec_speed(),
            300 <= r <= 1200,
    {
        match self {
            BallVelocity::Slow => BALL_SLOW_VELOCITY,
            BallVelocity::Medium => BALL_MEDIUM_VELOCITY,
            BallVelocity::Fast => BALL_FAST_VELOCITY,
        }
    }
}

/// One of sixteen evenly spaced unit-ish direction vectors, in
/// thousandths: entry `k` points at `k` sixteenths of a full turn, and
/// entry `k + 8` is exactly its opposite.
pub open spec fn spec_direction(k: int) -> (int, int) {
    if k == 0 {
        (1000, 0)
    } else if k == 1 {
        (924, 383)
    } else if k == 2 {
        (707, 707)
    } else if k == 3 {
        (383, 924)
    } else if k == 4 {
        (0, 1000)
    } else if k == 5 {
        (-383, 924)
    } else if k == 6 {
        (-707, 707)
    } else if k == 7 {
        (-924, 383)
    } else if k == 8 {
        (-1000, 0)
    } else if k == 9 {
        (-924, -383)
    } else if k == 10 {
        (-707, -707)
    } else if k == 11 {
        (-383, -924)
    } else if k == 12 {
        (0, -1000)
    } else if k == 13 {
        (383, -924)
    } else if k == 14 {
        (707, -707)
    } else {
        (924, -383)
    }
}

/// Returns the direction vector for compass index `k`.
fn direction_vector(k: i64) -> (r: (i64, i64))
    requires
        0 <= k < DIRECTION_COUNT,
    ensures
        r.0 == spec_direction(k as int).0,
        r.1 == spec_direction(k as int).1,
        -1000 <= r.0 <= 1000,
        -1000 <= r.1 <= 1000,
{
    if k == 0 {
        (1000, 0)
    } else if k == 1 {
        (924, 383)
    } else if k == 2 {
        (707, 707)
    } else if k == 3 {
        (383, 924)
    } else if k == 4 {
        (0, 1000)
    } else if k == 5 {
        (-383, 924)
    } else if k == 6 {
        (-707, 707)
    } else if k == 7 {
        (-924, 383)
    } else if k == 8 {
        (-1000, 0)
    } else if k == 9 {
        (-924, -383)
    } else if k == 10 {
        (-707, -707)
    } else if k == 11 {
        (-383, -924)
    } else if k == 12 {
        (0, -1000)
    } else if k == 13 {
        (383, -924)
    } else if k == 14 {
        (707, -707)
    } else {
        (924, -383)
    }
}

/// Whether setting off in direction `d` from position `p` keeps at least
/// an eighth of a turn away from the straight line toward the crosshair at
/// the origin: the ball never randomly heads for the crosshair.
pub open spec fn away_from_crosshair(px: int, py: int, d: (int, int)) -> bool {
    let dot = -(d.0 * px) - (d.1 * py);
    dot <= 0 || 2 * dot * dot <= (d.0 * d.0 + d.1 * d.1) * (px * px + py * py)
}

/// Scales `a` by `b` thousandths, rounding toward zero, as the fixed-point
/// product of a signed quantity and a non-negative factor.
pub open spec fn milli_scale(a: int, b: int) -> int
    recommends
        b >= 0,
{
    if a >= 0 {
        (a * b) / 1000
    } else {
        -(((-a) * b) / 1000)
    }
}

/// Computes `milli_scale` on machine integers.
fn milli_scale_exec(a: i64, b: i64) -> (r: i64)
    requires
        -1_000_000 <= a <= 1_000_000,
        0 <= b <= BALL_MAX_DELTA_MS,
    ensures
        r == milli_scale(a as int, b as int),
{
    if a >= 0 {
        proof {
            assert(0 <= a * b <= 60_000_000_000int) by (nonlinear_arith)
                requires
                    0 <= a <= 1_000_000,
                    0 <= b <= 60_000,
            ;
        }
        let p = (a as u64) * (b as u64);
        (p / 1000) as i64
    } else {
        proof {
            assert(0 <= (-a) * b <= 60_000_000_000int) by (nonlinear_arith)
                requires
                    -1_000_000 <= a < 0,
                    0 <= b <= 60_000,
            ;
        }
        let p = ((-a) as u64) * (b as u64);
        -((p / 1000) as i64)
    }
}

/// The mathematical state of the ball.
pub struct BallV {
    /// Horizontal position, thousandths; positive is right.
    pub pos_x: int,
    /// Vertical position, thousandths; positive is down.
    pub pos_y: int,
    /// Horizontal velocity, thousandths per second.
    pub vel_x: int,
    /// Vertical velocity, thousandths per second.
    pub vel_y: int,
    /// Milliseconds since the last random redirection.
    pub time_running: int,
    /// The random time at which the next redirection happens.
    pub velocity_change_time_at: int,
    /// Lower bound of the random redirection interval, milliseconds.
    pub change_min: int,
    /// Upper bound of the random redirection interval, milliseconds.
    pub change_max: int,
    /// The configured speed, thousandths per second.
    pub speed: int,
}

impl BallV {
    /// A well-formed ball state, kept by every update.
    pub open spec fn wf(self) -> bool {
        &&& -1000 + BALL_RADIUS <= self.pos_x <= 1000 - BALL_RADIUS
        &&& -1000 + BALL_RADIUS <= self.pos_y <= 1000 - BALL_RADIUS
        &&& -2000 <= self.vel_x <= 2000
        &&& -2000 <= self.vel_y <= 2000
        &&& 0 <= self.time_running <= MAX_SEGMENT_MS + BALL_MAX_DELTA_MS
        &&& 0 <= self.velocity_change_time_at <= MAX_SEGMENT_MS
        &&& 0 <= self.change_min <= self.change_max <= MAX_SEGMENT_MS
        &&& 300 <= self.speed <= 1200
    }
}

/// The deterministic part of one ball update step: integrate velocity and
/// input nudge over the time step, then bounce off whichever walls the
/// ball has reached, reflecting the velocity inward.
pub open spec fn ball_motion(b: BallV, ax: int, ay: int, dt: int) -> BallV {
    let px1 = b.pos_x + milli_scale(b.vel_x, dt) + milli_scale(milli_scale(ax, BALL_NUDGE_RATE as int), dt);
    let py1 = b.pos_y + milli_scale(b.vel_y, dt) - milli_scale(milli_scale(ay, BALL_NUDGE_RATE as int), dt);
    let (px2, vx2) = if px1 + BALL_RADIUS >= 1000 {
        (1000 - BALL_RADIUS as int, if b.vel_x >= 0 { -b.vel_x } else { b.vel_x })
    } else {
        (px1, b.vel_x)
    };
    let (px3, vx3) = if px2 - BALL_RADIUS <= -1000 {
        (-1000 + BALL_RADIUS as int, if vx2 >= 0 { vx2 } else { -vx2 })
    } else {
        (px2, vx2)
    };
    let (py2, vy2) = if py1 - BALL_RADIUS <= -1000 {
        (-1000 + BALL_RADIUS as int, if b.vel_y >= 0 { b.vel_y } else { -b.vel_y })
    } else {
        (py1, b.vel_y)
    };
    let (py3, vy3) = if py2 + BALL_RADIUS >= 1000 {
        (1000 - BALL_RADIUS as int, if vy2 >= 0 { -vy2 } else { vy2 })
    } else {
        (py2, vy2)
    };
    BallV {
        pos_x: px3,
        pos_y: py3,
        vel_x: vx3,
        vel_y: vy3,
        time_running: b.time_running + dt,
        ..b
    }
}

/// The ball state after a random redirection: a fresh velocity of the
/// configured speed along compass direction `k`, the redirection clock
/// restarted, and the next redirection due at `t`.
pub open spec fn redirected(b: BallV, k: int, t: int) -> BallV {
    BallV {
        vel_x: milli_scale(spec_direction(k).0, b.speed),
        vel_y: milli_scale(spec_direction(k).1, b.speed),
        time_running: 0,
        velocity_change_time_at: t,
        ..b
    }
}

/// How one ball update step relates the state before to the state after:
/// when the redirection timer has expired, some admissible redirection —
/// a compass direction that avoids the crosshair and a fresh random
/// interval — happened first; either way, the deterministic motion then
/// integrates velocity and nudge and bounces off the walls.
pub open spec fn ball_update_rel(pre: BallV, post: BallV, ax: int, ay: int, dt: int) -> bool {
    if pre.time_running >= pre.velocity_change_time_at {
        exists|k: int, t: int|
            0 <= k < DIRECTION_COUNT && away_from_crosshair(pre.pos_x, pre.pos_y, spec_direction(k))
                && pre.change_min <= t <= pre.change_max && post == ball_motion(
                #[trigger] redirected(pre, k, t),
                ax,
                ay,
                dt,
            )
    } else {
        post == ball_motion(pre, ax, ay, dt)
    }
}

/// The continuously player-steered tracking object.
#[derive(Debug, Clone)]
pub struct Ball {
    /// Horizontal position in thousandths of the half-screen.
    pos_x: i64,
    /// Vertical position in thousandths of the half-screen.
    pos_y: i64,
    /// Horizontal velocity in thousandths per second.
    vel_x: i64,
    /// Vertical velocity in thousandths per second.
    vel_y: i64,
    /// Milliseconds since the last random redirection.
    time_running: i64,
    /// When the next random redirection happens, in milliseconds.
    velocity_change_time_at: i64,
    /// The minimum of the random redirection interval, milliseconds.
    pub random_direction_change_time_min: i64,
    /// The maximum of the random redirection interval, milliseconds.
    pub random_direction_change_time_max: i64,
    /// The configured speed in thousandths per second.
    speed: i64,
}

impl View for Ball {
    type V = BallV;

    closed spec fn view(&self) -> BallV {
        BallV {
            pos_x: self.pos_x as int,
            pos_y: self.pos_y as int,
            vel_x: self.vel_x as int,
            vel_y: self.vel_y as int,
            time_running: self.time_running as int,
            velocity_change_time_at: self.velocity_change_time_at as int,
            change_min: self.random_direction_change_time_min as int,
            change_max: self.random_direction_change_time_max as int,
            speed: self.speed as int,
        }
    }
}

impl Ball {
    /// Picks a random compass direction that does not head for the
    /// crosshair, and returns the velocity of the configured speed along
    /// it. There is always such a direction: the sixteen candidates come
    /// in opposite pairs, and of two opposite directions at most one can
    /// point toward the crosshair.
    fn new_vel(&self) -> (v: (i64, i64))
        requires
            self@.wf(),
        ensures
            exists|k: int|
                0 <= k < DIRECTION_COUNT && away_from_crosshair(
                    self@.pos_x,
                    self@.pos_y,
                    spec_direction(k),
                ) && v.0 == milli_scale(spec_direction(k).0, self@.speed) && v.1 == milli_scale(
                    spec_direction(k).1,
                    self@.speed,
                ),
            -2000 <= v.0 <= 2000,
            -2000 <= v.1 <= 2000,
    {
        let offset = rand_i64_between(0, DIRECTION_COUNT - 1);
        let mut step: i64 = 0;
        while step < DIRECTION_COUNT
            invariant
                self@.wf(),
                0 <= offset < DIRECTION_COUNT,
                0 <= step <= DIRECTION_COUNT,
                forall|idx: int|
                    #![trigger spec_direction(idx)]
                    0 <= idx < DIRECTION_COUNT && ((offset <= idx < offset + step) || (0 <= idx
                        < offset + step - DIRECTION_COUNT)) ==> !away_from_crosshair(
                        self@.pos_x,
                        self@.pos_y,
                        spec_direction(idx),
                    ),
            decreases DIRECTION_COUNT - step,
        {
            let idx = if offset + step < DIRECTION_COUNT {
                offset + step
            } else {
                offset + step - DIRECTION_COUNT
            };
            let d = direction_vector(idx);
            proof {
                assert({
                    &&& -1_000_000 <= d.0 * self@.pos_x <= 1_000_000
                    &&& -1_000_000 <= d.1 * self@.pos_y <= 1_000_000
                    &&& 0 <= d.0 * d.0 <= 1_000_000
                    &&& 0 <= d.1 * d.1 <= 1_000_000
                    &&& 0 <= self@.pos_x * self@.pos_x <= 1_000_000
                    &&& 0 <= self@.pos_y * self@.pos_y <= 1_000_000
                }) by (nonlinear_arith)
                    requires
                        -1000 <= d.0 <= 1000,
                        -1000 <= d.1 <= 1000,
                        -1000 <= self@.pos_x <= 1000,
                        -1000 <= self@.pos_y <= 1000,
                ;
            }
            let dot = -(d.0 * self.pos_x) - (d.1 * self.pos_y);
            let dd = d.0 * d.0 + d.1 * d.1;
            let pp = self.pos_x * self.pos_x + self.pos_y * self.pos_y;
            proof {
                assert({
                    &&& 0 <= 2 * dot * dot <= 8_000_000_000_000int
                    &&& 0 <= dd * pp <= 4_000_000_000_000int
                }) by (nonlinear_arith)
                    requires
                        -2_000_000 <= dot <= 2_000_000,
                        0 <= dd <= 2_000_000,
                        0 <= pp <= 2_000_000,
                ;
            }
            if dot <= 0 || 2 * dot * dot <= dd * pp {
                let vx = milli_scale_exec(d.0, self.speed);
                let vy = milli_scale_exec(d.1, self.speed);
                proof {
                    lemma_dir_scale_small(d.0 as int, self@.speed);
                    lemma_dir_scale_small(d.1 as int, self@.speed);
                }
                return (vx, vy);
            }
            proof {
                assert(!away_from_crosshair(self@.pos_x, self@.pos_y, spec_direction(idx as int)));
            }
            step = step + 1;
        }
        // Of the opposite pair at offsets 0 and 8, at least one candidate
        // points away from the crosshair, so the loop cannot scan all
        // sixteen directions without returning.
        proof {
            let px = self@.pos_x;
            let py = self@.pos_y;
            let ia = offset as int;
            let ib = if offset + 8 < DIRECTION_COUNT {
                offset + 8
            } else {
                offset + 8 - DIRECTION_COUNT
            } as int;
            let da = spec_direction(ia);
            let db = spec_direction(ib);
            assert(db.0 == -da.0 && db.1 == -da.1);
            assert(!away_from_crosshair(px, py, da));
            assert(!away_from_crosshair(px, py, db));
            assert(-(da.0 * px) - (da.1 * py) > 0);
            assert(-(db.0 * px) - (db.1 * py) > 0);
            assert((-da.0) * px == -(da.0 * px)) by (nonlinear_arith);
            assert((-da.1) * py == -(da.1 * py)) by (nonlinear_arith);
            assert(false);
        }
        (0, 0)
    }

    /// Creates a new ball at the centre of the screen, moving at the
    /// configured speed in a random direction away from the crosshair,
    /// with its first redirection due immediately.
    pub fn new(
        random_direction_change_time_min: i64,
        random_direction_change_time_max: i64,
        velocity_meter: BallVelocity,
    ) -> (ball: Ball)
        requires
            0 <= random_direction_change_time_min <= random_direction_change_time_max
                <= MAX_SEGMENT_MS,
        ensures
            ball@.wf(),
            ball@.pos_x == 0 && ball@.pos_y == 0,
            ball@.time_running == 0,
            ball@.velocity_change_time_at == 0,
            ball@.change_min == random_direction_change_time_min,
            ball@.change_max == random_direction_change_time_max,
            ball@.speed == velocity_meter.spec_speed(),
    {
        let speed = velocity_meter.speed();
        let mut ball = Ball {
            pos_x: 0,
            pos_y: 0,
            vel_x: 0,
            vel_y: 0,
            time_running: 0,
            velocity_change_time_at: 0,
            random_direction_change_time_min,
            random_direction_change_time_max,
            speed,
        };
        let v = ball.new_vel();
        ball.vel_x = v.0;
        ball.vel_y = v.1;
        ball
    }

    /// Moves the ball through the 2D plane by one time step: redirects the
    /// velocity when the random redirection timer has expired, integrates
    /// velocity and input nudge, and bounces off the walls. The input axes
    /// are in thousandths of full deflection per axis.
    pub fn update(&mut self, input_axes: (i64, i64), delta_ms: i64)
        requires
            old(self)@.wf(),
            -1000 <= input_axes.0 <= 1000,
            -1000 <= input_axes.1 <= 1000,
            0 <= delta_ms <= BALL_MAX_DELTA_MS,
        ensures
            final(self)@.wf(),
            ball_update_rel(
                old(self)@,
                final(self)@,
                input_axes.0 as int,
                input_axes.1 as int,
                delta_ms as int,
            ),
    {
        let ghost entry = self@;
        let ghost mut gk: int = 0;

        if self.time_running >= self.velocity_change_time_at {
            let v = self.new_vel();
            self.vel_x = v.0;
            self.vel_y = v.1;
            self.time_running = 0;
            self.velocity_change_time_at = rand_i64_between(
                self.random_direction_change_time_min,
                self.random_direction_change_time_max,
            );
            proof {
                gk = choose|k: int|
                    0 <= k < DIRECTION_COUNT && away_from_crosshair(
                        entry.pos_x,
                        entry.pos_y,
                        spec_direction(k),
                    ) && v.0 == milli_scale(spec_direction(k).0, entry.speed) && v.1 == milli_scale(
                        spec_direction(k).1,
                        entry.speed,
                    );
                assert(self@ == redirected(entry, gk, self@.velocity_change_time_at));
            }
        }
        let ghost mid = self@;

        let nudge_vel_x = milli_scale_exec(input_axes.0, BALL_NUDGE_RATE);
        let nudge_vel_y = milli_scale_exec(input_axes.1, BALL_NUDGE_RATE);
        proof {
            lemma_nudge_small(input_axes.0 as int);
            lemma_nudge_small(input_axes.1 as int);
            lemma_milli_scale_small(self@.vel_x, delta_ms as int);
            lemma_milli_scale_small(self@.vel_y, delta_ms as int);
            lemma_milli_scale_small(nudge_vel_x as int, delta_ms as int);
            lemma_milli_scale_small(nudge_vel_y as int, delta_ms as int);
        }

        self.pos_x = self.pos_x + milli_scale_exec(self.vel_x, delta_ms) + milli_scale_exec(
            nudge_vel_x,
            delta_ms,
        );
        self.pos_y = self.pos_y + milli_scale_exec(self.vel_y, delta_ms) - milli_scale_exec(
            nudge_vel_y,
            delta_ms,
        );

        if self.pos_x + BALL_RADIUS >= 1000 {
            self.pos_x = 1000 - BALL_RADIUS;
            self.vel_x = if self.vel_x >= 0 {
                -self.vel_x
            } else {
                self.vel_x
            };
        }
        if self.pos_x - BALL_RADIUS <= -1000 {
            self.pos_x = -1000 + BALL_RADIUS;
            self.vel_x = if self.vel_x >= 0 {
                self.vel_x
            } else {
                -self.vel_x
            };
        }
        if self.pos_y - BALL_RADIUS <= -1000 {
            self.pos_y = -1000 + BALL_RADIUS;
            self.vel_y = if self.vel_y >= 0 {
                self.vel_y
            } else {
                -self.vel_y
            };
        }
        if self.pos_y + BALL_RADIUS >= 1000 {
            self.pos_y = 1000 - BALL_RADIUS;
            self.vel_y = if self.vel_y >= 0 {
                -self.vel_y
            } else {
                self.vel_y
            };
        }

        self.time_running = self.time_running + delta_ms;

        proof {
            assert(self@ == ball_motion(
                mid,
                input_axes.0 as int,
                input_axes.1 as int,
                delta_ms as int,
            ));
            if entry.time_running >= entry.velocity_change_time_at {
                let t = mid.velocity_change_time_at;
                assert(mid == redirected(entry, gk, t));
                assert(0 <= gk < DIRECTION_COUNT && away_from_crosshair(
                    entry.pos_x,
                    entry.pos_y,
                    spec_direction(gk),
                ) && entry.change_min <= t <= entry.change_max && self@ == ball_motion(
                    redirected(entry, gk, t),
                    input_axes.0 as int,
                    input_axes.1 as int,
                    delta_ms as int,
                ));
            }
        }
    }

    /// The squared distance from the ball to the centre crosshair, in
    /// millionths of the squared half-screen: the tracking error metric.
    pub fn current_rms_error(&self) -> (r: i64)
        requires
            self@.wf(),
        ensures
            r == self@.pos_x * self@.pos_x + self@.pos_y * self@.pos_y,
            0 <= r <= 2_000_000,
    {
        proof {
            assert(self@.pos_x * self@.pos_x + self@.pos_y * self@.pos_y <= 2_000_000int)
                by (nonlinear_arith)
                requires
                    -1000 <= self@.pos_x <= 1000,
                    -1000 <= self@.pos_y <= 1000,
            ;
            assert(self@.pos_x * self@.pos_x >= 0) by (nonlinear_arith);
            assert(self@.pos_y * self@.pos_y >= 0) by (nonlinear_arith);
        }
        self.pos_x * self.pos_x + self.pos_y * self.pos_y
    }

    /// The ball's position, in thousandths of the half-screen.
    pub fn pos(&self) -> (r: (i64, i64))
        ensures
            r.0 == self@.pos_x,
            r.1 == self@.pos_y,
    {
        (self.pos_x, self.pos_y)
    }
}

impl Default for Ball {
    /// A slow ball at the centre of the screen that never randomly
    /// redirects later than immediately: the placeholder the presentation
    /// layer holds before the configuration is read.
    fn default() -> (ball: Ball)
        ensures
            ball@.wf(),
            ball@.pos_x == 0 && ball@.pos_y == 0,
            ball@.speed == BallVelocity::Slow.spec_speed(),
    {
        Ball::new(0, 0, BallVelocity::Slow)
    }
}

/// Scaling a direction component by a speed of at most 1200 thousandths
/// per second gives a velocity component of at most 1200.
proof fn lemma_dir_scale_small(a: int, s: int)
    requires
        -1000 <= a <= 1000,
        0 <= s <= 1200,
    ensures
        -1200 <= milli_scale(a, s) <= 1200,
{
    if a >= 0 {
        assert(0 <= a * s <= 1_200_000int) by (nonlinear_arith)
            requires
                0 <= a <= 1000,
                0 <= s <= 1200,
        ;
    } else {
        assert(0 <= (-a) * s <= 1_200_000int) by (nonlinear_arith)
            requires
                -1000 <= a < 0,
                0 <= s <= 1200,
        ;
    }
}

/// A full-deflection nudge contributes at most the nudge rate itself to
/// the velocity.
proof fn lemma_nudge_small(a: int)
    requires
        -1000 <= a <= 1000,
    ensures
        -1200 <= milli_scale(a, BALL_NUDGE_RATE as int) <= 1200,
{
    if a >= 0 {
        assert(0 <= a * 1200 <= 1_200_000int) by (nonlinear_arith)
            requires
                0 <= a <= 1000,
        ;
    } else {
        assert(0 <= (-a) * 1200 <= 1_200_000int) by (nonlinear_arith)
            requires
                -1000 <= a < 0,
        ;
    }
}

/// Scaling a small signed quantity by at most a half-screen of thousandths
/// keeps it small.
proof fn lemma_milli_scale_small(a: int, b: int)
    requires
        -2000 <= a <= 2000,
        0 <= b <= BALL_MAX_DELTA_MS,
    ensures
        -120_000 <= milli_scale(a, b) <= 120_000,
{
    if a >= 0 {
        assert(0 <= a * b <= 120_000_000int) by (nonlinear_arith)
            requires
                0 <= a <= 2000,
                0 <= b <= 60_000,
        ;
        assert(0 <= (a * b) / 1000 <= 120_000int);
    } else {
        assert(0 <= (-a) * b <= 120_000_000int) by (nonlinear_arith)
            requires
                -2000 <= a < 0,
                0 <= b <= 60_000,
        ;
        assert(0 <= ((-a) * b) / 1000 <= 120_000int);
    }
}

} // verus!
