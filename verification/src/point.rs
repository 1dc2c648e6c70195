//! Positions in 3-dimensional space.
//!
//! A point is a vector-backed position.  Point arithmetic is deliberately
//! restricted: a point plus or minus a vector is a point, and the difference
//! of two points is a vector; points never combine additively with each
//! other.

use crate::fixed::Fx;
use crate::vector::{vec_add, vec_sub, Vector};
use vstd::prelude::*;

verus! {

/// Position in 3-dimensional space.
#[derive(Clone, Copy, Debug, PartialEq, Eq, Structural)]
pub struct Point {
    /// Position vector.
    pub position: Vector,
}

impl Point {
    /// Creates a 3-dimensional point from coordinates.
    pub fn new(x: Fx, y: Fx, z: Fx) -> (r: Point)
        ensures
            r.position == (Vector { x, y, z }),
    {
        Point { position: Vector::new(x, y, z) }
    }

    /// Point plus vector: the point translated by the displacement.
    pub fn add(self, rhs: Vector) -> (r: Point)
        ensures
            r.position == vec_add(self.position, rhs),
    {
        Point { position: self.position.add(rhs) }
    }

    /// Point minus point: the displacement from the other point to this one.
    pub fn sub(self, rhs: Point) -> (r: Vector)
        ensures
            r == vec_sub(self.position, rhs.position),
    {
        self.position.sub(rhs.position)
    }

    /// Point minus vector: the point translated against the displacement.
    pub fn sub_vector(self, rhs: Vector) -> (r: Point)
        ensures
            r.position == vec_sub(self.position, rhs),
    {
        Point { position: self.position.sub(rhs) }
    }

    /// The origin.
    pub fn zero() -> (r: Point)
        ensures
            r.position == (Vector { x: Fx { raw: 0 }, y: Fx { raw: 0 }, z: Fx { raw: 0 } }),
    {
        Point { position: Vector::zero() }
    }
}

} // verus!
