//! Dielectric (refractive) material model.

use crate::color::Color;
use crate::fixed::{fx_add, fx_div, fx_mul, fx_sub, Fx, SCALE};
use crate::material::Interaction;
use crate::ray::Ray;
use crate::shape::Intersection;
use crate::vector::{vec_cos_i, vec_dot, vec_neg, vec_normalize, vec_reflect, vec_refract, Vector};
use vstd::prelude::*;

verus! {

/// Dielectric material: refracts or reflects, weighted by Schlick's
/// approximation of the Fresnel reflectance; absorbs nothing.
#[derive(Clone, Copy, Debug, PartialEq, Eq, Structural)]
pub struct Dielectric {
    /// Index of refraction.
    pub ior: Fx,
}

/// Mirror of Schlick's reflectance approximation:
/// `r0 + (1 - r0) * (1 - cos_i)^5` with `r0 = ((1 - eta) / (1 + eta))^2`,
/// the fifth power computed as `((p^2)^2) * p`.
pub open spec fn schlick_reflectance(incident: Vector, normal: Vector, eta: int) -> int {
    let cos_i = vec_cos_i(incident, normal);
    let ratio = fx_div(fx_sub(SCALE as int, eta), fx_add(SCALE as int, eta));
    let r0 = fx_mul(ratio, ratio);
    let p = fx_sub(SCALE as int, cos_i);
    let p2 = fx_mul(p, p);
    let p5 = fx_mul(fx_mul(p2, p2), p);
    fx_add(r0, fx_mul(fx_sub(SCALE as int, r0), p5))
}

/// Mirror of the sidedness test: the ray enters from outside exactly when its
/// direction points against the stored outward normal.
pub open spec fn dielectric_front_face(incident_ray: Ray, isect: Intersection) -> bool {
    vec_dot(incident_ray.direction, isect.normal) <= 0
}

/// Mirror of the outward-corrected normal used by the dielectric.
pub open spec fn dielectric_normal(incident_ray: Ray, isect: Intersection) -> Vector {
    if dielectric_front_face(incident_ray, isect) {
        isect.normal
    } else {
        vec_neg(isect.normal)
    }
}

/// Mirror of the refraction ratio: `1 / ior` when entering, `ior` when
/// exiting.
pub open spec fn dielectric_eta(d: Dielectric, incident_ray: Ray, isect: Intersection) -> int {
    if dielectric_front_face(incident_ray, isect) {
        fx_div(SCALE as int, d.ior.ival())
    } else {
        d.ior.ival()
    }
}

/// Mirror of the dielectric scatter direction for a given reflectance draw:
/// reflect when the draw falls below Schlick's reflectance or refraction is
/// geometrically impossible (total internal reflection); refract otherwise.
pub open spec fn dielectric_direction(
    d: Dielectric,
    incident_ray: Ray,
    isect: Intersection,
    coin: int,
) -> Vector {
    let normal = dielectric_normal(incident_ray, isect);
    let eta = dielectric_eta(d, incident_ray, isect);
    let incident = vec_normalize(incident_ray.direction);
    if schlick_reflectance(incident, normal, eta) > coin {
        vec_reflect(incident, normal)
    } else {
        match vec_refract(incident, normal, eta) {
            Some(refracted) => refracted,
            None => vec_reflect(incident, normal),
        }
    }
}

/// Mirror of dielectric scattering: always scatters, with fully transmissive
/// (white) attenuation.
pub open spec fn dielectric_scatter(
    d: Dielectric,
    incident_ray: Ray,
    isect: Intersection,
    coin: int,
) -> Interaction {
    Interaction {
        attenuation: Color {
            values: Vector { x: Fx { raw: SCALE }, y: Fx { raw: SCALE }, z: Fx { raw: SCALE } },
        },
        scattered_ray: Ray {
            origin: isect.point,
            direction: dielectric_direction(d, incident_ray, isect, coin),
        },
    }
}

impl Dielectric {
    /// Creates a dielectric material with the given index of refraction.
    pub fn new(index_of_refraction: Fx) -> (r: Dielectric)
        ensures
            r.ior == index_of_refraction,
    {
        Dielectric { ior: index_of_refraction }
    }

    /// Schlick's approximation for reflectance.
    pub fn schlick(&self, incident: Vector, normal: Vector, eta: Fx) -> (r: Fx)
        ensures
            r.ival() == schlick_reflectance(incident, normal, eta.ival()),
    {
        let one = Fx::one();
        let d = normal.dot(&incident).neg();
        let cos_i = if d.raw > one.raw {
            one
        } else {
            d
        };
        let ratio = one.sub(eta).div(one.add(eta));
        let r0 = ratio.mul(ratio);
        let p = one.sub(cos_i);
        let p2 = p.mul(p);
        let p5 = p2.mul(p2).mul(p);
        r0.add(one.sub(r0).mul(p5))
    }

    /// Scatters an incident ray at an intersection.  `coin` is the
    /// caller-supplied uniform draw in `[0, 1)` deciding between reflection
    /// and refraction; the result is a deterministic function of it.  A
    /// dielectric never absorbs: the attenuation is always white.
    pub fn interact(&self, incident_ray: Ray, intersection: Intersection, coin: Fx)
        -> (r: Option<Interaction>)
        ensures
            r == Some(dielectric_scatter(*self, incident_ray, intersection, coin.ival())),
    {
        let front_face = incident_ray.direction.dot(&intersection.normal).raw <= 0;
        let normal = if front_face {
            intersection.normal
        } else {
            intersection.normal.neg()
        };
        let etai_over_etat = if front_face {
            Fx::one().div(self.ior)
        } else {
            self.ior
        };
        let incident = incident_ray.direction.normalize();
        let scattered = if self.schlick(incident, normal, etai_over_etat).raw > coin.raw {
            incident.reflect(normal)
        } else {
            match incident.refract(normal, etai_over_etat) {
                Some(refracted) => refracted,
                None => incident.reflect(normal),
            }
        };
        Some(
            Interaction {
                attenuation: Color::white(),
                scattered_ray: Ray::new(intersection.point, scattered),
            },
        )
    }
}

} // verus!
