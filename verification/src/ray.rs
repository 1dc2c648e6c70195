//! Rays: an origin with a direction.

use crate::fixed::Fx;
use crate::point::Point;
use crate::vector::{vec_add, vec_scale, Vector};
use vstd::prelude::*;

verus! {

/// Ray in 3-dimensional space, parameterized as `origin + t * direction`.
/// The direction is not normalized by construction; consumers normalize when
/// they require it.
#[derive(Clone, Copy, Debug, PartialEq, Eq, Structural)]
pub struct Ray {
    /// Initial point.
    pub origin: Point,
    /// Direction vector.
    pub direction: Vector,
}

/// Mirror of `Ray::at`: the position vector of the point at parameter `t`.
pub open spec fn ray_at(r: Ray, t: int) -> Vector {
    vec_add(r.origin.position, vec_scale(r.direction, t))
}

impl Ray {
    /// Creates a ray from origin and direction.
    pub fn new(origin: Point, direction: Vector) -> (r: Ray)
        ensures
            r == (Ray { origin, direction }),
    {
        Ray { origin, direction }
    }

    /// The ray's initial point.
    pub fn origin(&self) -> (r: Point)
        ensures
            r == self.origin,
    {
        self.origin
    }

    /// The ray's direction vector.
    pub fn direction(&self) -> (r: Vector)
        ensures
            r == self.direction,
    {
        self.direction
    }

    /// Position on the ray at parameter `t`.
    pub fn at(&self, t: Fx) -> (r: Point)
        ensures
            r.position == ray_at(*self, t.ival()),
    {
        self.origin.add(self.direction.scale(t))
    }
}

} // verus!
