//! The closed set of intersectable shapes.

use crate::fixed::Fx;
use crate::interval::Interval;
use crate::material::Material;
use crate::point::Point;
use crate::ray::Ray;
use crate::sphere::{sphere_hit, Sphere};
use crate::vector::Vector;
use vstd::prelude::*;

verus! {

/// An intersectable shape in 3-dimensional space.  The variant set is closed
/// and dispatched by a single match.
#[derive(Clone, Copy, Debug, PartialEq, Eq, Structural)]
pub enum Shape {
    Sphere(Sphere),
}

/// Intersection record: the hit point, the outward geometric normal (never
/// flipped for interior hits; the dielectric re-derives sidedness itself),
/// the material at the hit, and the ray parameter.
#[derive(Clone, Copy, Debug, PartialEq, Eq, Structural)]
pub struct Intersection {
    /// Intersection point.
    pub point: Point,
    /// Outward normal at the intersection.
    pub normal: Vector,
    /// Material at the intersection, copied by value.
    pub material: Material,
    /// Value of the ray parameter `t`.
    pub t: Fx,
}

/// Mirror of shape dispatch.
pub open spec fn shape_hit(s: Shape, ray: Ray, ray_t: Interval) -> Option<Intersection> {
    match s {
        Shape::Sphere(sp) => sphere_hit(sp, ray, ray_t),
    }
}

/// Well-formedness of a shape: its material is well-formed.
pub open spec fn shape_wf(s: Shape) -> bool {
    match s {
        Shape::Sphere(sp) => crate::material::material_wf(sp.material),
    }
}

impl Shape {
    /// Tests for ray intersection in the given parameter interval.
    pub fn intersect(&self, ray: Ray, ray_t: Interval) -> (r: Option<Intersection>)
        ensures
            r == shape_hit(*self, ray, ray_t),
    {
        match self {
            Shape::Sphere(s) => s.intersect(ray, ray_t),
        }
    }
}

} // verus!
