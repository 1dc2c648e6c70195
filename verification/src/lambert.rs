//! Lambertian (diffuse) material model.

use crate::color::Color;
use crate::material::Interaction;
use crate::ray::Ray;
use crate::shape::Intersection;
use crate::vector::{vec_add, vec_near_zero, Vector};
use vstd::prelude::*;

verus! {

/// Lambertian material: scatters diffusely, never absorbs.
#[derive(Clone, Copy, Debug, PartialEq, Eq, Structural)]
pub struct Lambert {
    /// Fraction of light that the object reflects, per channel.
    pub albedo: Color,
}

/// Mirror of Lambertian scattering: the scatter direction is the surface
/// normal plus a unit vector; if that sum degenerates to near zero, the bare
/// normal is used instead.  The attenuation is the albedo, unconditionally.
pub open spec fn lambert_scatter(l: Lambert, isect: Intersection, unit: Vector) -> Interaction {
    let candidate = vec_add(isect.normal, unit);
    let scattered = if vec_near_zero(candidate) {
        isect.normal
    } else {
        candidate
    };
    Interaction {
        attenuation: l.albedo,
        scattered_ray: Ray { origin: isect.point, direction: scattered },
    }
}

impl Lambert {
    /// Creates a Lambertian material with the given albedo.
    pub fn new(albedo: Color) -> (r: Lambert)
        ensures
            r.albedo == albedo,
    {
        Lambert { albedo }
    }

    /// Scatters an incident ray at an intersection.  `unit_sample` is the
    /// caller-supplied unit direction drawn for this bounce; the result is a
    /// deterministic function of it.  A Lambertian surface never absorbs.
    pub fn interact(&self, _incident_ray: Ray, intersection: Intersection, unit_sample: Vector)
        -> (r: Option<Interaction>)
        ensures
            r == Some(lambert_scatter(*self, intersection, unit_sample)),
    {
        let mut scattered = intersection.normal.add(unit_sample);
        if scattered.near_zero() {
            scattered = intersection.normal;
        }
        Some(
            Interaction {
                attenuation: self.albedo,
                scattered_ray: Ray::new(intersection.point, scattered),
            },
        )
    }
}

} // verus!
