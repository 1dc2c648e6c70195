//! Open ranges of ray parameters.

use crate::fixed::Fx;
use vstd::prelude::*;

verus! {

/// Interval of scalar values, exclusive at both ends.
#[derive(Clone, Copy, Debug, PartialEq, Eq, Structural)]
pub struct Interval {
    /// Lower bound.
    pub start: Fx,
    /// Upper bound.
    pub end: Fx,
}

/// Mirror of the strict containment test.  Both bounds are excluded; the
/// strict lower bound is what rejects a ray re-intersecting the surface it
/// just left.
pub open spec fn interval_contains(i: Interval, x: int) -> bool {
    i.start.ival() < x && x < i.end.ival()
}

impl Interval {
    /// Creates an interval from start and end values.
    pub fn new(start: Fx, end: Fx) -> (r: Interval)
        ensures
            r == (Interval { start, end }),
    {
        Interval { start, end }
    }

    /// Lower bound.
    pub fn start(&self) -> (r: Fx)
        ensures
            r == self.start,
    {
        self.start
    }

    /// Upper bound.
    pub fn end(&self) -> (r: Fx)
        ensures
            r == self.end,
    {
        self.end
    }

    /// Whether the interval contains `x`, start exclusive, end exclusive.
    pub fn contains(&self, x: Fx) -> (r: bool)
        ensures
            r == interval_contains(*self, x.ival()),
    {
        self.start.raw < x.raw && x.raw < self.end.raw
    }
}

} // verus!
