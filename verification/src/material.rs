//! The closed set of material scattering behaviors.

use crate::color::{color_in_unit, Color};
use crate::dielectric::{dielectric_scatter, Dielectric};
use crate::fixed::{Fx, SCALE};
use crate::lambert::{lambert_scatter, Lambert};
use crate::metal::{metal_scatter, Metal};
use crate::ray::Ray;
use crate::shape::Intersection;
use crate::vector::Vector;
use vstd::prelude::*;

verus! {

/// A material defines how an object interacts with light rays.  The variant
/// set is closed and dispatched by a single match.
#[derive(Clone, Copy, Debug, PartialEq, Eq, Structural)]
pub enum Material {
    Dielectric(Dielectric),
    Lambert(Lambert),
    Metal(Metal),
    Absorb,
}

/// Interaction record: what a scattering material hands back.
#[derive(Clone, Copy, Debug, PartialEq, Eq, Structural)]
pub struct Interaction {
    /// Color attenuation to be applied to the scattered ray.
    pub attenuation: Color,
    /// Scattered ray.
    pub scattered_ray: Ray,
}

/// Mirror of material dispatch: each variant's deterministic scattering as a
/// function of the injected random values.  `unit` feeds the diffuse and fuzz
/// perturbations, `coin` the dielectric's reflectance draw; the absorbing
/// material scatters nothing.
pub open spec fn material_scatter(
    m: Material,
    incident_ray: Ray,
    isect: Intersection,
    unit: Vector,
    coin: int,
) -> Option<Interaction> {
    match m {
        Material::Dielectric(d) => Some(dielectric_scatter(d, incident_ray, isect, coin)),
        Material::Lambert(l) => Some(lambert_scatter(l, isect, unit)),
        Material::Metal(mt) => metal_scatter(mt, incident_ray, isect, unit),
        Material::Absorb => None,
    }
}

/// Well-formedness of a material: albedos lie in the unit range and the fuzz
/// factor in `[0, 1]`.
pub open spec fn material_wf(m: Material) -> bool {
    match m {
        Material::Dielectric(_) => true,
        Material::Lambert(l) => color_in_unit(l.albedo),
        Material::Metal(mt) => color_in_unit(mt.albedo) && 0 <= mt.fuzz.raw <= SCALE,
        Material::Absorb => true,
    }
}

impl Material {
    /// Evaluates the material at an intersection.  `unit_sample` and `coin`
    /// are the randomness for this bounce, drawn by the caller; given them,
    /// the result is deterministic.  An absent result means full absorption.
    pub fn interact(
        &self,
        incident_ray: Ray,
        intersection: Intersection,
        unit_sample: Vector,
        coin: Fx,
    ) -> (r: Option<Interaction>)
        ensures
            r == material_scatter(*self, incident_ray, intersection, unit_sample, coin.ival()),
    {
        match self {
            Material::Dielectric(d) => d.interact(incident_ray, intersection, coin),
            Material::Lambert(l) => l.interact(incident_ray, intersection, unit_sample),
            Material::Metal(m) => m.interact(incident_ray, intersection, unit_sample),
            Material::Absorb => None,
        }
    }
}

/// A well-formed material only ever attenuates: whatever randomness is drawn,
/// a scattered interaction carries an attenuation inside the unit range.
pub proof fn lemma_scatter_attenuation_in_unit(
    m: Material,
    incident_ray: Ray,
    isect: Intersection,
    unit: Vector,
    coin: int,
)
    requires
        material_wf(m),
        material_scatter(m, incident_ray, isect, unit, coin) is Some,
    ensures
        color_in_unit(material_scatter(m, incident_ray, isect, unit, coin)->Some_0.attenuation),
{
}

} // verus!
