//! Timed interpolation segments and the drift-path generator.
//!
//! A dial's needle follows a queue of [`PathSegment`]s. Within one segment
//! the needle eases from `start` to `end` along a sigmoid-shaped S-curve:
//! it leaves `start` slowly, accelerates through the midpoint, and settles
//! into `end`. The curve is computed in fixed point, as a per-mille weight
//! of the segment's travel.

use crate::range::DialRange;
use crate::range::MAX_OVERSHOOT;
use crate::range::RANGE_BOUND_LIMIT;
use crate::rng::rand_i64_between;
use std::collections::VecDeque;
use vstd::arithmetic::div_mod::lemma_div_is_ordered;
use vstd::arithmetic::div_mod::lemma_div_multiples_vanish;
use vstd::arithmetic::div_mod::lemma_div_of0;
use vstd::arithmetic::div_mod::lemma_div_pos_is_pos;
use vstd::arithmetic::mul::lemma_mul_inequality;
use vstd::arithmetic::mul::lemma_mul_nonnegative;
use vstd::prelude::*;

verus! {

/// Largest magnitude a dial value may reach, in dial units. Needle values
/// always stay inside this limit: out-of-range drift saturates here.
pub const VALUE_LIMIT: i64 = 2_000_000;

/// Largest duration, in milliseconds, of a single path segment, and also
/// the largest admissible drift deadline (a little under three hours).
pub const MAX_SEGMENT_MS: i64 = 10_000_000;

/// The number of path segments generated for a dial that wanders with no
/// scheduled drift-out.
pub const WANDER_SEGMENT_COUNT: usize = 4000;

/// Mean milliseconds per segment for a slow dial.
pub const SLOW_SEGMENT_MS: i64 = 3000;
/// Mean milliseconds per segment for a medium dial.
pub const MEDIUM_SEGMENT_MS: i64 = 2000;
/// Mean milliseconds per segment for a fast dial.
pub const FAST_SEGMENT_MS: i64 = 1000;
/// Random deviation around the mean for a slow dial.
pub const SLOW_SEGMENT_DEVIATION_MS: i64 = 1000;
/// Random deviation around the mean for a medium dial.
pub const MEDIUM_SEGMENT_DEVIATION_MS: i64 = 500;
/// Random deviation around the mean for a fast dial.
pub const FAST_SEGMENT_DEVIATION_MS: i64 = 250;

/// How quickly a dial's needle may move: decides the band that segment
/// durations are drawn from.
#[derive(Debug, Clone, Copy, PartialEq, Eq, Structural)]
pub enum DialSpeed {
    /// Slowest needle movement.
    Slow,
    /// Medium needle movement.
    Medium,
    /// Fastest needle movement.
    Fast,
}

impl DialSpeed {
    /// Shortest segment duration this speed may draw, in milliseconds.
    pub open spec fn band_min(self) -> int {
        match self {
            DialSpeed::Slow => SLOW_SEGMENT_MS - SLOW_SEGMENT_DEVIATION_MS,
            DialSpeed::Medium => MEDIUM_SEGMENT_MS - MEDIUM_SEGMENT_DEVIATION_MS,
            DialSpeed::Fast => FAST_SEGMENT_MS - FAST_SEGMENT_DEVIATION_MS,
        }
    }

    /// Longest segment duration this speed may draw, in milliseconds.
    pub open spec fn band_max(self) -> int {
        match self {
            DialSpeed::Slow => SLOW_SEGMENT_MS + SLOW_SEGMENT_DEVIATION_MS,
            DialSpeed::Medium => MEDIUM_SEGMENT_MS + MEDIUM_SEGMENT_DEVIATION_MS,
            DialSpeed::Fast => FAST_SEGMENT_MS + FAST_SEGMENT_DEVIATION_MS,
        }
    }

    /// The inclusive band of segment durations for this speed.
    pub fn segment_band(self) -> (r: (i64, i64))
        ensures
            r.0 == self.band_min(),
            r.1 == self.band_max(),
    {
        match self {
            DialSpeed::Slow => (
                SLOW_SEGMENT_MS - SLOW_SEGMENT_DEVIATION_MS,
                SLOW_SEGMENT_MS + SLOW_SEGMENT_DEVIATION_MS,
            ),
            DialSpeed::Medium => (
                MEDIUM_SEGMENT_MS - MEDIUM_SEGMENT_DEVIATION_MS,
                MEDIUM_SEGMENT_MS + MEDIUM_SEGMENT_DEVIATION_MS,
            ),
            DialSpeed::Fast => (
                FAST_SEGMENT_MS - FAST_SEGMENT_DEVIATION_MS,
                FAST_SEGMENT_MS + FAST_SEGMENT_DEVIATION_MS,
            ),
        }
    }
}

/// The sigmoid-shaped ease weight: how far, in per mille of its total
/// travel, a segment has progressed at time `t` of its duration `d`.
/// It is 0 at `t == 0`, 500 at the midpoint, and 1000 at `t == d`,
/// and it accelerates through the middle as a logistic curve does.
pub open spec fn ease_permille(t: int, d: int) -> int
    recommends
        0 <= t <= d,
        1 <= d,
{
    if 2 * t <= d {
        (2000 * t * t) / (d * d)
    } else {
        1000 - (2000 * (d - t) * (d - t)) / (d * d)
    }
}

/// The quarter-square bound behind the ease curve: a quadratic term over a
/// half-duration stays within half of the travel.
proof fn lemma_quad_quarter(u: int, d: int)
    requires
        1 <= d,
        0 <= 2 * u <= d,
    ensures
        0 <= (2000 * u * u) / (d * d) <= 500,
{
    lemma_mul_nonnegative(u, u);
    assert(d * d >= 1) by (nonlinear_arith)
        requires
            1 <= d,
    ;
    assert(2000 * u * u >= 0) by (nonlinear_arith)
        requires
            0 <= u,
    ;
    lemma_div_pos_is_pos(2000 * u * u, d * d);
    assert(2000 * u * u <= (d * d) * 500) by (nonlinear_arith)
        requires
            0 <= 2 * u <= d,
    ;
    lemma_div_is_ordered(2000 * u * u, (d * d) * 500, d * d);
    lemma_div_multiples_vanish(500, d * d);
}

/// The ease weight always lies between 0 and 1000 per mille.
pub proof fn lemma_ease_bounds(t: int, d: int)
    requires
        0 <= t <= d,
        1 <= d,
    ensures
        0 <= ease_permille(t, d) <= 1000,
        2 * t <= d ==> ease_permille(t, d) <= 500,
        2 * t > d ==> ease_permille(t, d) >= 500,
{
    if 2 * t <= d {
        lemma_quad_quarter(t, d);
    } else {
        lemma_quad_quarter(d - t, d);
    }
}

/// The ease weight never decreases as time advances through a segment.
pub proof fn lemma_ease_monotone(t1: int, t2: int, d: int)
    requires
        0 <= t1 <= t2 <= d,
        1 <= d,
    ensures
        ease_permille(t1, d) <= ease_permille(t2, d),
{
    assert(d * d >= 1) by (nonlinear_arith)
        requires
            1 <= d,
    ;
    if 2 * t2 <= d {
        assert(2000 * t1 * t1 <= 2000 * t2 * t2) by (nonlinear_arith)
            requires
                0 <= t1 <= t2,
        ;
        lemma_div_is_ordered(2000 * t1 * t1, 2000 * t2 * t2, d * d);
    } else if 2 * t1 > d {
        assert(2000 * (d - t2) * (d - t2) <= 2000 * (d - t1) * (d - t1)) by (nonlinear_arith)
            requires
                t1 <= t2 <= d,
        ;
        lemma_div_is_ordered(2000 * (d - t2) * (d - t2), 2000 * (d - t1) * (d - t1), d * d);
    } else {
        lemma_ease_bounds(t1, d);
        lemma_ease_bounds(t2, d);
    }
}

/// The ease weight starts at 0 and ends at 1000.
pub proof fn lemma_ease_endpoints(d: int)
    requires
        1 <= d,
    ensures
        ease_permille(0, d) == 0,
        ease_permille(d, d) == 1000,
{
    assert(d * d >= 1) by (nonlinear_arith)
        requires
            1 <= d,
    ;
    assert(2000 * 0 * 0 == 0);
    assert(2000 * (d - d) * (d - d) == 0);
    lemma_div_of0(d * d);
}

/// A single timed transition of the needle from `start` to `end`,
/// traversed along the ease curve over `duration_ms` milliseconds.
/// Ephemeral: created by the path generator, consumed by the dial.
#[derive(Debug, Clone, Copy, PartialEq, Eq, Structural)]
pub struct PathSegment {
    /// The needle value this segment starts from.
    pub start: i64,
    /// The needle value this segment ends at.
    pub end: i64,
    /// How long the segment takes, in milliseconds; always positive.
    pub duration_ms: i64,
}

impl PathSegment {
    /// A well-formed segment: positive bounded duration, bounded values.
    pub open spec fn wf(self) -> bool {
        &&& 1 <= self.duration_ms <= MAX_SEGMENT_MS
        &&& -VALUE_LIMIT <= self.start <= VALUE_LIMIT
        &&& -VALUE_LIMIT <= self.end <= VALUE_LIMIT
    }

    /// The needle value at time `t` of this segment: the ease weight's
    /// share of the travel from `start` to `end`.
    pub open spec fn spec_value_at(self, t: int) -> int {
        if self.end >= self.start {
            self.start + (ease_permille(t, self.duration_ms as int) * (self.end - self.start))
                / 1000
        } else {
            self.start - (ease_permille(t, self.duration_ms as int) * (self.start - self.end))
                / 1000
        }
    }

    /// +1 if this segment carries the needle upward, -1 if downward.
    pub open spec fn spec_travel_direction(self) -> int {
        if self.start < self.end {
            1
        } else {
            -1
        }
    }

    /// Returns the value at the given time into the path segment.
    pub fn value_at_time(&self, time: i64) -> (v: i64)
        requires
            self.wf(),
            0 <= time <= self.duration_ms,
        ensures
            v == self.spec_value_at(time as int),
            -VALUE_LIMIT <= v <= VALUE_LIMIT,
    {
        let e = ease_value(time, self.duration_ms);
        proof {
            lemma_value_between(*self, time as int);
        }
        if self.end >= self.start {
            let diff = self.end - self.start;
            proof {
                lemma_mul_nonnegative(e as int, diff as int);
                lemma_mul_inequality(e as int, 1000, diff as int);
                lemma_mul_inequality(diff as int, 2 * VALUE_LIMIT, 1000);
                lemma_div_pos_is_pos(e * diff, 1000);
                lemma_div_is_ordered(e * diff, 1000 * diff, 1000);
                lemma_div_multiples_vanish(diff as int, 1000);
            }
            let travel = (e as u64) * (diff as u64);
            let share = (travel / 1000) as i64;
            self.start + share
        } else {
            let diff = self.start - self.end;
            proof {
                lemma_mul_nonnegative(e as int, diff as int);
                lemma_mul_inequality(e as int, 1000, diff as int);
                lemma_mul_inequality(diff as int, 2 * VALUE_LIMIT, 1000);
                lemma_div_pos_is_pos(e * diff, 1000);
                lemma_div_is_ordered(e * diff, 1000 * diff, 1000);
                lemma_div_multiples_vanish(diff as int, 1000);
            }
            let travel = (e as u64) * (diff as u64);
            let share = (travel / 1000) as i64;
            self.start - share
        }
    }

    /// Returns true if the time is within the path segment duration.
    pub fn in_segment(&self, time: i64) -> (r: bool)
        ensures
            r == (time <= self.duration_ms),
    {
        time <= self.duration_ms
    }

    /// Returns 1 if the segment has the value increasing, -1 if decreasing.
    pub fn travel_direction(&self) -> (r: i64)
        ensures
            r == self.spec_travel_direction(),
    {
        if self.start < self.end {
            1
        } else {
            -1
        }
    }
}

/// Computes the ease weight in executable fixed-point arithmetic.
fn ease_value(t: i64, d: i64) -> (e: i64)
    requires
        0 <= t <= d,
        1 <= d <= MAX_SEGMENT_MS,
    ensures
        e == ease_permille(t as int, d as int),
        0 <= e <= 1000,
{
    proof {
        lemma_ease_bounds(t as int, d as int);
        assert(1 <= d * d <= 100_000_000_000_000int) by (nonlinear_arith)
            requires
                1 <= d <= MAX_SEGMENT_MS,
        ;
        assert(2000 * t * t <= 200_000_000_000_000_000int) by (nonlinear_arith)
            requires
                0 <= t <= MAX_SEGMENT_MS,
        ;
        assert(2000 * (d - t) * (d - t) <= 200_000_000_000_000_000int) by (nonlinear_arith)
            requires
                0 <= t <= d <= MAX_SEGMENT_MS,
        ;
    }
    let tu = t as u64;
    let du = d as u64;
    let den = du * du;
    if 2 * tu <= du {
        let num = 2000 * tu * tu;
        (num / den) as i64
    } else {
        let u = du - tu;
        let num = 2000 * u * u;
        1000 - (num / den) as i64
    }
}

/// The needle value within a segment always lies between the segment's two
/// endpoint values.
pub proof fn lemma_value_between(seg: PathSegment, t: int)
    requires
        seg.wf(),
        0 <= t <= seg.duration_ms,
    ensures
        seg.end >= seg.start ==> seg.start <= seg.spec_value_at(t) <= seg.end,
        seg.end < seg.start ==> seg.end <= seg.spec_value_at(t) <= seg.start,
{
    let d = seg.duration_ms as int;
    let e = ease_permille(t, d);
    lemma_ease_bounds(t, d);
    if seg.end >= seg.start {
        let diff = seg.end - seg.start;
        lemma_mul_nonnegative(e, diff);
        lemma_div_pos_is_pos(e * diff, 1000);
        lemma_mul_inequality(e, 1000, diff);
        lemma_div_is_ordered(e * diff, 1000 * diff, 1000);
        lemma_div_multiples_vanish(diff, 1000);
    } else {
        let diff = seg.start - seg.end;
        lemma_mul_nonnegative(e, diff);
        lemma_div_pos_is_pos(e * diff, 1000);
        lemma_mul_inequality(e, 1000, diff);
        lemma_div_is_ordered(e * diff, 1000 * diff, 1000);
        lemma_div_multiples_vanish(diff, 1000);
    }
}

/// Within a segment, the needle moves monotonically from `start` toward
/// `end` as time advances.
pub proof fn lemma_value_monotone(seg: PathSegment, t1: int, t2: int)
    requires
        seg.wf(),
        0 <= t1 <= t2 <= seg.duration_ms,
    ensures
        seg.end >= seg.start ==> seg.spec_value_at(t1) <= seg.spec_value_at(t2),
        seg.end < seg.start ==> seg.spec_value_at(t1) >= seg.spec_value_at(t2),
{
    let d = seg.duration_ms as int;
    let e1 = ease_permille(t1, d);
    let e2 = ease_permille(t2, d);
    lemma_ease_monotone(t1, t2, d);
    if seg.end >= seg.start {
        let diff = seg.end - seg.start;
        lemma_mul_inequality(e1, e2, diff);
        lemma_div_is_ordered(e1 * diff, e2 * diff, 1000);
    } else {
        let diff = seg.start - seg.end;
        lemma_mul_inequality(e1, e2, diff);
        lemma_div_is_ordered(e1 * diff, e2 * diff, 1000);
    }
}

/// Once the needle of an out-going segment has left the range, it stays
/// out for the rest of the segment: the needle moves monotonically toward
/// the segment's out-of-range target.
pub proof fn lemma_out_stays_out(range: DialRange, seg: PathSegment, t1: int, t2: int)
    requires
        range.wf(),
        seg.wf(),
        range.spec_contains(seg.start as int),
        !range.spec_contains(seg.end as int),
        0 <= t1 <= t2 <= seg.duration_ms,
        !range.spec_contains(seg.spec_value_at(t1)),
    ensures
        !range.spec_contains(seg.spec_value_at(t2)),
{
    lemma_value_between(seg, t1);
    lemma_value_between(seg, t2);
    lemma_value_monotone(seg, t1, t2);
}

/// A segment's value is exactly `start` at time 0 and exactly `end` at the
/// end of its duration.
pub proof fn lemma_value_endpoints(seg: PathSegment)
    requires
        seg.wf(),
    ensures
        seg.spec_value_at(0) == seg.start,
        seg.spec_value_at(seg.duration_ms as int) == seg.end,
{
    let d = seg.duration_ms as int;
    lemma_ease_endpoints(d);
    if seg.end >= seg.start {
        let diff = seg.end - seg.start;
        lemma_div_of0(1000);
        assert(0 * diff == 0);
        lemma_div_multiples_vanish(diff, 1000);
        assert(1000 * diff == diff * 1000) by (nonlinear_arith);
    } else {
        let diff = seg.start - seg.end;
        lemma_div_of0(1000);
        assert(0 * diff == 0);
        lemma_div_multiples_vanish(diff, 1000);
        assert(1000 * diff == diff * 1000) by (nonlinear_arith);
    }
}

/// `tc` is the first millisecond at which the needle of `seg` is outside
/// `range`: out at `tc`, still inside at every earlier time.
pub open spec fn is_first_crossing(range: DialRange, seg: PathSegment, tc: int) -> bool {
    &&& 1 <= tc <= seg.duration_ms
    &&& !range.spec_contains(seg.spec_value_at(tc))
    &&& forall|t: int| 0 <= t < tc ==> range.spec_contains(#[trigger] seg.spec_value_at(t))
}

/// A segment has at most one first crossing time.
pub proof fn lemma_first_crossing_unique(range: DialRange, seg: PathSegment, t1: int, t2: int)
    requires
        is_first_crossing(range, seg, t1),
        is_first_crossing(range, seg, t2),
    ensures
        t1 == t2,
{
    if t1 < t2 {
        assert(range.spec_contains(seg.spec_value_at(t1)));
    }
    if t2 < t1 {
        assert(range.spec_contains(seg.spec_value_at(t2)));
    }
}

/// A segment whose endpoints both lie inside the range keeps its needle
/// inside the range for its whole duration.
pub proof fn lemma_segment_stays_in_range(range: DialRange, seg: PathSegment, t: int)
    requires
        range.wf(),
        seg.wf(),
        range.spec_contains(seg.start as int),
        range.spec_contains(seg.end as int),
        0 <= t <= seg.duration_ms,
    ensures
        range.spec_contains(seg.spec_value_at(t)),
{
    lemma_value_between(seg, t);
}

/// After its first crossing, an out-going segment's needle is outside the
/// range at every later time of the segment.
pub proof fn lemma_out_after_crossing(range: DialRange, seg: PathSegment, tc: int, t: int)
    requires
        range.wf(),
        seg.wf(),
        range.spec_contains(seg.start as int),
        !range.spec_contains(seg.end as int),
        is_first_crossing(range, seg, tc),
        tc <= t <= seg.duration_ms,
    ensures
        !range.spec_contains(seg.spec_value_at(t)),
{
    lemma_out_stays_out(range, seg, tc, t);
}

/// Returns the exact time at which the needle passes out of the range while
/// traversing `seg`, a segment that starts inside the range and ends outside
/// of it. The ease curve is continuous in whole milliseconds and crosses the
/// boundary strictly before the segment nominally ends whenever the target
/// overshoots the boundary, so this is found by bisection over the curve
/// rather than assumed to be the whole segment duration.
pub fn time_to_pass_end(range: &DialRange, seg: &PathSegment) -> (tc: i64)
    requires
        range.wf(),
        seg.wf(),
        range.spec_contains(seg.start as int),
        !range.spec_contains(seg.end as int),
    ensures
        is_first_crossing(*range, *seg, tc as int),
{
    proof {
        lemma_value_endpoints(*seg);
    }
    let mut lo: i64 = 0;
    let mut hi: i64 = seg.duration_ms;
    while hi - lo > 1
        invariant
            range.wf(),
            seg.wf(),
            range.spec_contains(seg.start as int),
            !range.spec_contains(seg.end as int),
            0 <= lo < hi <= seg.duration_ms,
            range.spec_contains(seg.spec_value_at(lo as int)),
            !range.spec_contains(seg.spec_value_at(hi as int)),
        decreases hi - lo,
    {
        let mid = lo + (hi - lo) / 2;
        let v = seg.value_at_time(mid);
        if range.contains(v) {
            lo = mid;
        } else {
            hi = mid;
        }
    }
    proof {
        assert forall|t: int| 0 <= t < hi implies range.spec_contains(
            #[trigger] seg.spec_value_at(t),
        ) by {
            if !range.spec_contains(seg.spec_value_at(t)) {
                lemma_out_stays_out(*range, *seg, t, lo as int);
            }
        }
    }
    hi
}

/// A segment that starts inside the range and ends outside it travels
/// outward: upward past the high boundary, downward past the low one. Its
/// travel direction, captured when the dial pops it, keeps the needle
/// moving away from the range.
pub proof fn lemma_crossing_direction(range: DialRange, seg: PathSegment)
    requires
        range.wf(),
        range.spec_contains(seg.start as int),
        !range.spec_contains(seg.end as int),
    ensures
        seg.end > range.end ==> seg.spec_travel_direction() == 1,
        seg.end < range.start ==> seg.spec_travel_direction() == -1,
{
}

/// Both endpoints of the segment lie inside the band.
pub open spec fn seg_in_range(range: DialRange, seg: PathSegment) -> bool {
    &&& range.spec_contains(seg.start as int)
    &&& range.spec_contains(seg.end as int)
}

/// The segment's duration was drawn from the speed's band.
pub open spec fn band_ok(speed: DialSpeed, seg: PathSegment) -> bool {
    speed.band_min() <= seg.duration_ms <= speed.band_max()
}

/// Consecutive segments join up: each segment ends where the next begins.
pub open spec fn chained(path: Seq<PathSegment>) -> bool {
    forall|i: int|
        #![trigger path[i]]
        0 <= i < path.len() - 1 ==> path[i].end == path[i + 1].start
}

/// Every segment of the path is well-formed.
pub open spec fn all_wf(path: Seq<PathSegment>) -> bool {
    forall|i: int| #![trigger path[i]] 0 <= i < path.len() ==> path[i].wf()
}

/// The sum of the durations of all segments of the path, in milliseconds.
pub open spec fn path_duration_sum(path: Seq<PathSegment>) -> int
    decreases path.len(),
{
    if path.len() == 0 {
        0
    } else {
        path[0].duration_ms + path_duration_sum(path.drop_first())
    }
}

/// Prepending a segment adds its duration to the path's total.
pub proof fn lemma_sum_cons(x: PathSegment, s: Seq<PathSegment>)
    ensures
        path_duration_sum(seq![x] + s) == x.duration_ms + path_duration_sum(s),
{
    assert((seq![x] + s).drop_first() =~= s);
    assert((seq![x] + s)[0] == x);
}

/// Splitting the last segment off a path splits its duration sum.
pub proof fn lemma_sum_drop_last(s: Seq<PathSegment>)
    requires
        s.len() >= 1,
    ensures
        path_duration_sum(s) == path_duration_sum(s.drop_last()) + s.last().duration_ms,
    decreases s.len(),
{
    if s.len() == 1 {
        assert(s.drop_last() =~= Seq::<PathSegment>::empty());
        assert(s.drop_first() =~= Seq::<PathSegment>::empty());
    } else {
        lemma_sum_drop_last(s.drop_first());
        assert(s.drop_first().drop_last() =~= s.drop_last().drop_first());
        assert(s.drop_first().last() == s.last());
        assert(s.drop_last()[0] == s[0]);
    }
}

/// The total time, in milliseconds, a drift path takes until the needle
/// first leaves the range: every earlier segment in full, plus the crossing
/// segment up to its first crossing time.
pub open spec fn drift_total_ms(path: Seq<PathSegment>, tc: int) -> int {
    path_duration_sum(path) - path.last().duration_ms + tc
}

/// What `generate_random_dial_path` promises of a path built with a drift
/// deadline: the needle stays in range through every earlier segment, the
/// last segment carries it out, and the first crossing happens exactly at
/// the deadline (or as soon after as a path can be built, when the deadline
/// is shorter than a single segment).
pub open spec fn drift_path_ok(
    range: DialRange,
    path: Seq<PathSegment>,
    speed: DialSpeed,
    deadline: int,
) -> bool {
    &&& path.len() >= 2
    &&& forall|i: int|
        #![trigger path[i]]
        1 <= i < path.len() - 1 ==> seg_in_range(range, path[i]) && band_ok(speed, path[i])
    &&& range.spec_contains(path.last().start as int)
    &&& !range.spec_contains(path.last().end as int)
    &&& range.spec_contains(path[0].end as int)
    &&& band_ok(speed, path.last())
    &&& exists|tc: int|
        #[trigger] is_first_crossing(range, path.last(), tc) && drift_total_ms(path, tc) == (
        if deadline >= tc + 1 {
            deadline
        } else {
            tc + 1
        })
}

/// What `generate_random_dial_path` promises of a wander path: a long chain
/// of segments that never leave the range.
pub open spec fn wander_path_ok(range: DialRange, path: Seq<PathSegment>, speed: DialSpeed) -> bool {
    &&& path.len() == WANDER_SEGMENT_COUNT
    &&& forall|i: int|
        #![trigger path[i]]
        0 <= i < path.len() ==> seg_in_range(range, path[i]) && band_ok(speed, path[i])
}

/// Range containment for wander paths: every segment of a path built
/// without a drift deadline keeps the needle inside the range at every
/// time of its duration.
pub proof fn lemma_wander_path_in_range(
    range: DialRange,
    path: Seq<PathSegment>,
    speed: DialSpeed,
    i: int,
    t: int,
)
    requires
        range.wf(),
        all_wf(path),
        wander_path_ok(range, path, speed),
        0 <= i < path.len(),
        0 <= t <= path[i].duration_ms,
    ensures
        range.spec_contains(path[i].spec_value_at(t)),
{
    lemma_segment_stays_in_range(range, path[i], t);
}

/// Generates a new random dial path: either an indefinite in-range wander
/// (`drift_out_time == None`), or a chain that carries the needle out of
/// the range exactly `drift_out_time` milliseconds from now. The drift
/// chain is built backward from the crossing segment, and the time the
/// crossing segment spends inside the range is budgeted exactly.
pub fn generate_random_dial_path(
    range: &DialRange,
    start_value: i64,
    drift_out_time: Option<i64>,
    speed: DialSpeed,
) -> (path: VecDeque<PathSegment>)
    requires
        range.wf(),
        -VALUE_LIMIT <= start_value <= VALUE_LIMIT,
        drift_out_time is None ==> range.spec_contains(start_value as int),
        drift_out_time matches Some(t) ==> 0 <= t <= MAX_SEGMENT_MS,
    ensures
        path@.len() >= 1,
        all_wf(path@),
        chained(path@),
        path@[0].start == start_value,
        match drift_out_time {
            Option::None => wander_path_ok(*range, path@, speed),
            Option::Some(deadline) => drift_path_ok(*range, path@, speed, deadline as int),
        },
{
    let (min_seg, max_seg) = speed.segment_band();
    assert(1 <= min_seg && min_seg <= max_seg && max_seg <= MAX_SEGMENT_MS);

    let mut segments: VecDeque<PathSegment> = VecDeque::new();

    match drift_out_time {
        Option::Some(deadline) => {
            let s0 = range.random_in();
            let e0 = range.slightly_out(s0);
            let d0 = rand_i64_between(min_seg, max_seg);
            let first_segment = PathSegment { start: s0, end: e0, duration_ms: d0 };
            let tc = time_to_pass_end(range, &first_segment);

            let mut time_remaining: i64 = deadline - tc;
            let mut end = s0;
            let mut start = range.random_near(end);

            segments.push_back(first_segment);
            proof {
                assert(path_duration_sum(Seq::<PathSegment>::empty()) == 0);
                assert(segments@.drop_first() =~= Seq::<PathSegment>::empty());
                assert(path_duration_sum(segments@) == first_segment.duration_ms);
            }

            while time_remaining > max_seg
                invariant
                    range.wf(),
                    first_segment.wf(),
                    1 <= min_seg <= max_seg <= MAX_SEGMENT_MS,
                    min_seg == speed.band_min(),
                    max_seg == speed.band_max(),
                    is_first_crossing(*range, first_segment, tc as int),
                    1 <= tc <= first_segment.duration_ms,
                    segments@.len() >= 1,
                    segments@.last() == first_segment,
                    all_wf(segments@),
                    chained(segments@),
                    forall|i: int|
                        #![trigger segments@[i]]
                        0 <= i < segments@.len() - 1 ==> seg_in_range(*range, segments@[i])
                            && band_ok(speed, segments@[i]),
                    segments@[0].start == end,
                    range.spec_contains(end as int),
                    range.spec_contains(start as int),
                    path_duration_sum(segments@) == first_segment.duration_ms + (deadline - tc
                        - time_remaining),
                    segments@.len() > 1 ==> time_remaining > 0,
                    time_remaining <= deadline - tc,
                decreases time_remaining,
            {
                let duration = rand_i64_between(min_seg, max_seg);
                let segment = PathSegment { start, end, duration_ms: duration };
                let ghost before = segments@;
                segments.push_front(segment);
                proof {
                    lemma_sum_cons(segment, before);
                }

                let last_end = end;
                end = start;
                start = range.random_near(last_end);
                time_remaining = time_remaining - duration;
            }

            let filler_duration = if time_remaining < 1 {
                1
            } else {
                time_remaining
            };
            let final_segment = PathSegment {
                start: start_value,
                end,
                duration_ms: filler_duration,
            };
            let ghost before_filler = segments@;
            segments.push_front(final_segment);
            proof {
                lemma_sum_cons(final_segment, before_filler);
                let s = segments@;
                let tci = tc as int;
                assert(s.last() == before_filler.last());
                assert(s.last() == first_segment);
                assert(path_duration_sum(s) == final_segment.duration_ms + path_duration_sum(
                    before_filler,
                ));
                assert(drift_total_ms(s, tci) == final_segment.duration_ms + (deadline - tc
                    - time_remaining) + tci);
                if time_remaining >= 1 {
                    assert(final_segment.duration_ms == time_remaining);
                    assert(deadline >= tci + 1);
                    assert(drift_total_ms(s, tci) == deadline);
                } else {
                    assert(before_filler.len() == 1);
                    assert(before_filler.drop_first() =~= Seq::<PathSegment>::empty());
                    assert(path_duration_sum(Seq::<PathSegment>::empty()) == 0);
                    assert(before_filler[0] == first_segment);
                    assert(path_duration_sum(before_filler) == first_segment.duration_ms);
                    assert(time_remaining == deadline - tc);
                    assert(final_segment.duration_ms == 1);
                    assert(deadline <= tci);
                    assert(drift_total_ms(s, tci) == tci + 1);
                }
                assert(is_first_crossing(*range, s.last(), tci) && drift_total_ms(s, tci) == (
                if deadline >= tci + 1 {
                    deadline as int
                } else {
                    tci + 1
                }));
            }
        },
        Option::None => {
            let mut last_value = start_value;
            let mut i: usize = 0;
            while i < WANDER_SEGMENT_COUNT
                invariant
                    range.wf(),
                    1 <= min_seg <= max_seg <= MAX_SEGMENT_MS,
                    min_seg == speed.band_min(),
                    max_seg == speed.band_max(),
                    range.spec_contains(last_value as int),
                    -VALUE_LIMIT <= start_value <= VALUE_LIMIT,
                    i <= WANDER_SEGMENT_COUNT,
                    segments@.len() == i,
                    i == 0 ==> last_value == start_value,
                    i > 0 ==> segments@[0].start == start_value,
                    i > 0 ==> segments@.last().end == last_value,
                    all_wf(segments@),
                    chained(segments@),
                    forall|i: int|
                        #![trigger segments@[i]]
                        0 <= i < segments@.len() ==> seg_in_range(*range, segments@[i]) && band_ok(
                            speed,
                            segments@[i],
                        ),
                decreases WANDER_SEGMENT_COUNT - i,
            {
                let next_value = range.random_near(last_value);
                let duration = rand_i64_between(min_seg, max_seg);
                segments.push_back(
                    PathSegment { start: last_value, end: next_value, duration_ms: duration },
                );
                last_value = next_value;
                i = i + 1;
            }
        },
    }
    segments
}

} // verus!
