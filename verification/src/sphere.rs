//! Spheres and the ray-sphere intersection test.

use crate::fixed::{fx_add, fx_div, fx_mul, fx_neg, fx_of, fx_sqrt, fx_sub, Fx};
use crate::interval::{interval_contains, Interval};
use crate::material::Material;
use crate::point::Point;
use crate::ray::{ray_at, Ray};
use crate::shape::Intersection;
use crate::vector::{vec_div_scalar, vec_dot, vec_len_sq, vec_sub};
use vstd::prelude::*;

verus! {

/// Sphere in 3-dimensional space defined by center position and radius.
#[derive(Clone, Copy, Debug, PartialEq, Eq, Structural)]
pub struct Sphere {
    /// Center position.
    pub center: Point,
    /// Sphere radius.
    pub radius: Fx,
    /// Surface material.
    pub material: Material,
}

/// Mirror of the discriminant of the ray-sphere quadratic, over the
/// half-coefficient form: `half_b^2 - a * c`.
pub open spec fn sphere_discriminant(s: Sphere, ray: Ray) -> int {
    let oc = vec_sub(ray.origin.position, s.center.position);
    let a = vec_len_sq(ray.direction);
    let half_b = vec_dot(ray.direction, oc);
    let c = fx_sub(vec_len_sq(oc), fx_mul(s.radius.ival(), s.radius.ival()));
    fx_sub(fx_mul(half_b, half_b), fx_mul(a, c))
}

/// Mirror of the smaller quadratic root `(-half_b - sqrt(disc)) / a`.
pub open spec fn sphere_root_near(s: Sphere, ray: Ray) -> int {
    let oc = vec_sub(ray.origin.position, s.center.position);
    let a = vec_len_sq(ray.direction);
    let half_b = vec_dot(ray.direction, oc);
    fx_div(fx_sub(fx_neg(half_b), fx_sqrt(sphere_discriminant(s, ray))), a)
}

/// Mirror of the larger quadratic root `(-half_b + sqrt(disc)) / a`.
pub open spec fn sphere_root_far(s: Sphere, ray: Ray) -> int {
    let oc = vec_sub(ray.origin.position, s.center.position);
    let a = vec_len_sq(ray.direction);
    let half_b = vec_dot(ray.direction, oc);
    fx_div(fx_add(fx_neg(half_b), fx_sqrt(sphere_discriminant(s, ray))), a)
}

/// Mirror of the intersection record built for a surviving root `t`: the hit
/// point on the ray and the outward normal `(point - center) / radius`.
pub open spec fn sphere_intersection_at(s: Sphere, ray: Ray, t: int) -> Intersection {
    let point = ray_at(ray, t);
    Intersection {
        point: Point { position: point },
        normal: vec_div_scalar(vec_sub(point, s.center.position), s.radius.ival()),
        material: s.material,
        t: fx_of(t),
    }
}

/// Mirror of the full intersection test: a negative discriminant misses;
/// otherwise the nearer root is taken if the interval contains it, else the
/// farther root, else the ray misses.
pub open spec fn sphere_hit(s: Sphere, ray: Ray, ray_t: Interval) -> Option<Intersection> {
    if sphere_discriminant(s, ray) < 0 {
        None
    } else if interval_contains(ray_t, sphere_root_near(s, ray)) {
        Some(sphere_intersection_at(s, ray, sphere_root_near(s, ray)))
    } else if interval_contains(ray_t, sphere_root_far(s, ray)) {
        Some(sphere_intersection_at(s, ray, sphere_root_far(s, ray)))
    } else {
        None
    }
}

impl Sphere {
    /// Creates a sphere with center position, radius and material.
    pub fn new(center: Point, radius: Fx, material: Material) -> (r: Sphere)
        ensures
            r == (Sphere { center, radius, material }),
    {
        Sphere { center, radius, material }
    }

    /// Solves the ray-sphere quadratic and returns the nearest root lying in
    /// the given interval, if any.  The test misses exactly when the
    /// discriminant is negative or neither root lies inside the interval —
    /// even though a geometric intersection may exist outside it.
    pub fn intersect(&self, ray: Ray, ray_t: Interval) -> (r: Option<Intersection>)
        ensures
            r == sphere_hit(*self, ray, ray_t),
            r is None <==> (sphere_discriminant(*self, ray) < 0 || (!interval_contains(
                ray_t,
                sphere_root_near(*self, ray),
            ) && !interval_contains(ray_t, sphere_root_far(*self, ray)))),
    {
        let oc = ray.origin.sub(self.center);
        let a = ray.direction.length_squared();
        let half_b = ray.direction.dot(&oc);
        let c = oc.length_squared().sub(self.radius.mul(self.radius));

        let discriminant = half_b.mul(half_b).sub(a.mul(c));
        if discriminant.raw < 0 {
            return None;
        }
        let discriminant_sqrt = discriminant.sqrt();

        let mut root = half_b.neg().sub(discriminant_sqrt).div(a);
        if !ray_t.contains(root) {
            root = half_b.neg().add(discriminant_sqrt).div(a);
            if !ray_t.contains(root) {
                return None;
            }
        }
        let point = ray.at(root);
        let normal = point.sub(self.center).div_scalar(self.radius);

        Some(Intersection { point, normal, material: self.material, t: root })
    }
}

} // verus!
