//! The in-range band of a dial, with the random sampling helpers used by the
//! drift-path generator.

use crate::rng::{rand_coin, rand_i64_between};
use vstd::prelude::*;

verus! {

/// Largest magnitude a range boundary may have, in dial units.
pub const RANGE_BOUND_LIMIT: i64 = 1_000_000;

/// Largest overshoot past a boundary that `slightly_out` may produce,
/// in dial units.
pub const MAX_OVERSHOOT: i64 = 400;

/// A band which a dial's needle is supposed to stay inside; when the needle
/// leaves it, the alarm fires. Inclusive at both ends.
#[derive(Debug, Clone, Copy, PartialEq, Eq, Structural)]
pub struct DialRange {
    /// The low boundary of the band; always less than `end`.
    pub start: i64,
    /// The high boundary of the band.
    pub end: i64,
}

impl DialRange {
    /// A well-formed band: non-degenerate and within the representable
    /// dial-unit limits, wide enough that its middle is strictly inside.
    pub open spec fn wf(self) -> bool {
        &&& -RANGE_BOUND_LIMIT <= self.start
        &&& self.start < self.end
        &&& self.end <= RANGE_BOUND_LIMIT
        &&& self.end - self.start >= 2
    }

    /// Whether `value` lies inside the band, inclusively.
    pub open spec fn spec_contains(self, value: int) -> bool {
        self.start <= value <= self.end
    }

    pub fn new(start: i64, end: i64) -> (r: DialRange)
        requires
            -RANGE_BOUND_LIMIT <= start,
            start < end,
            end <= RANGE_BOUND_LIMIT,
            end - start >= 2,
        ensures
            r == (DialRange { start, end }),
            r.wf(),
    {
        DialRange { start, end }
    }

    /// Returns true if the value is contained within this range, inclusively.
    pub fn contains(&self, value: i64) -> (r: bool)
        ensures
            r == self.spec_contains(value as int),
    {
        value <= self.end && value >= self.start
    }

    /// Returns the value in the direct middle of the range.
    pub fn middle(&self) -> (r: i64)
        requires
            self.wf(),
        ensures
            r == self.start + (self.end - self.start) / 2,
            self.start < r < self.end,
    {
        (self.end - self.start) / 2 + self.start
    }

    /// Returns a random value inside of this range, with no other
    /// constraints.
    pub fn random_in(&self) -> (r: i64)
        requires
            self.wf(),
        ensures
            self.spec_contains(r as int),
    {
        rand_i64_between(self.start, self.end)
    }

    /// Returns a random value near the provided value, offset by at most
    /// half of the range width. An offset that would leave the range is
    /// reflected, so the result never leaves the range.
    pub fn random_near(&self, value: i64) -> (r: i64)
        requires
            self.wf(),
            self.spec_contains(value as int),
        ensures
            self.spec_contains(r as int),
            r - value <= (self.end - self.start) / 2,
            value - r <= (self.end - self.start) / 2,
    {
        let width = self.end - self.start;
        let magnitude = rand_i64_between(0, width / 2);
        let decrease = rand_coin();
        let offset = if decrease {
            -magnitude
        } else {
            magnitude
        };

        if self.contains(value + offset) {
            value + offset
        } else {
            value - offset
        }
    }

    /// Returns a value slightly outside of the range, past whichever
    /// boundary is nearer to `value`: the target of the segment that carries
    /// the needle out of range. The overshoot is random but at least one
    /// dial unit, so the result is strictly outside.
    pub fn slightly_out(&self, value: i64) -> (r: i64)
        requires
            self.wf(),
        ensures
            !self.spec_contains(r as int),
            value <= self.start + (self.end - self.start) / 2 ==> r < self.start,
            value > self.start + (self.end - self.start) / 2 ==> r > self.end,
            r < self.start ==> self.start - r <= MAX_OVERSHOOT,
            r > self.end ==> r - self.end <= MAX_OVERSHOOT,
            -RANGE_BOUND_LIMIT - MAX_OVERSHOOT <= r <= RANGE_BOUND_LIMIT + MAX_OVERSHOOT,
    {
        let halfway = self.middle();
        let amount = rand_i64_between(1, MAX_OVERSHOOT);

        if value <= halfway {
            self.start - amount
        } else {
            self.end + amount
        }
    }
}

} // verus!
