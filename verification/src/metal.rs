//! Metal (specular) material model.

use crate::color::Color;
use crate::fixed::{Fx, SCALE};
use crate::material::Interaction;
use crate::ray::Ray;
use crate::shape::Intersection;
use crate::vector::{
    vec_add, vec_dot, vec_near_zero, vec_normalize, vec_of, vec_reflect, vec_scale, Vector,
};
use vstd::prelude::*;

verus! {

/// Metal material: mirror reflection, optionally perturbed by a fuzz factor.
#[derive(Clone, Copy, Debug, PartialEq, Eq, Structural)]
pub struct Metal {
    /// Fraction of light that the object reflects, per channel.
    pub albedo: Color,
    /// Reflection fuzz factor, clamped into `[0, 1]` at construction.
    pub fuzz: Fx,
}

/// Mirror of metal scattering: reflect the incoming direction about the
/// normal, perturb the normalized reflection by `fuzz` times a unit vector
/// (falling back to the unperturbed reflection if the sum degenerates), and
/// absorb the ray if the result points into the surface.
pub open spec fn metal_scatter(
    m: Metal,
    incident_ray: Ray,
    isect: Intersection,
    unit: Vector,
) -> Option<Interaction> {
    let reflected = vec_reflect(incident_ray.direction, isect.normal);
    let candidate = vec_add(vec_normalize(reflected), vec_scale(unit, m.fuzz.ival()));
    let scattered = if vec_near_zero(candidate) {
        reflected
    } else {
        candidate
    };
    if vec_dot(scattered, isect.normal) < 0 {
        None
    } else {
        Some(
            Interaction {
                attenuation: m.albedo,
                scattered_ray: Ray { origin: isect.point, direction: scattered },
            },
        )
    }
}

impl Metal {
    /// Creates a metal material with the given albedo; the fuzz factor is
    /// clamped into `[0, 1]`.
    pub fn new(albedo: Color, fuzz: Fx) -> (r: Metal)
        ensures
            r.albedo == albedo,
            r.fuzz.raw == if fuzz.raw < 0 {
                0
            } else if fuzz.raw > SCALE {
                SCALE as int
            } else {
                fuzz.raw as int
            },
    {
        let clamped = if fuzz.raw < 0 {
            Fx::zero()
        } else if fuzz.raw > SCALE {
            Fx::one()
        } else {
            fuzz
        };
        Metal { albedo, fuzz: clamped }
    }

    /// Scatters an incident ray at an intersection.  `unit_sample` is the
    /// caller-supplied unit direction used for the fuzz perturbation; the
    /// result is a deterministic function of it.  With zero fuzz the scatter
    /// direction is exactly the normalized reflection.
    pub fn interact(&self, incident_ray: Ray, intersection: Intersection, unit_sample: Vector)
        -> (r: Option<Interaction>)
        ensures
            r == metal_scatter(*self, incident_ray, intersection, unit_sample),
    {
        let reflected = incident_ray.direction.reflect(intersection.normal);
        let mut scattered = reflected.normalize().add(unit_sample.scale(self.fuzz));
        if scattered.near_zero() {
            scattered = reflected;
        }
        if scattered.dot(&intersection.normal).raw < 0 {
            return None;
        }
        Some(
            Interaction {
                attenuation: self.albedo,
                scattered_ray: Ray::new(intersection.point, scattered),
            },
        )
    }
}

/// With zero fuzz, metal scattering is deterministic: whatever unit vector is
/// drawn, a surviving scatter direction is exactly the normalized reflection
/// of the incident direction about the intersection normal.
pub proof fn lemma_metal_fuzz_zero(m: Metal, incident_ray: Ray, isect: Intersection, unit: Vector)
    requires
        m.fuzz.raw == 0,
        metal_scatter(m, incident_ray, isect, unit) is Some,
    ensures
        metal_scatter(m, incident_ray, isect, unit)->Some_0.scattered_ray.direction
            == vec_normalize(vec_reflect(incident_ray.direction, isect.normal))
            || vec_near_zero(vec_normalize(vec_reflect(incident_ray.direction, isect.normal))),
{
    let reflected = vec_reflect(incident_ray.direction, isect.normal);
    let norm = vec_normalize(reflected);
    assert(vec_scale(unit, 0) == vec_of(0, 0, 0));
    assert(vec_add(norm, vec_of(0, 0, 0)) == norm);
}

} // verus!
