//! Material scattering, with the per-bounce randomness injected explicitly.

use rand::rngs::StdRng;
use rand::{Rng, SeedableRng};
use raytracer::color::Color;
use raytracer::dielectric::Dielectric;
use raytracer::fixed::Fx;
use raytracer::lambert::Lambert;
use raytracer::material::Material;
use raytracer::metal::Metal;
use raytracer::point::Point;
use raytracer::ray::Ray;
use raytracer::shape::Intersection;
use raytracer::vector::Vector;

fn fi(i: i64) -> Fx {
    Fx::from_int(i)
}

fn p3(x: i64, y: i64, z: i64) -> Point {
    Point::new(fi(x), fi(y), fi(z))
}

fn v3(x: i64, y: i64, z: i64) -> Vector {
    Vector::new(fi(x), fi(y), fi(z))
}

fn coin_from(rng: &mut StdRng) -> Fx {
    Fx::new(rng.gen_range(0..65536))
}

#[test]
fn dielectric_interact() {
    let mut rng = StdRng::seed_from_u64(11);
    let d = Dielectric::new(Fx::new(98304));
    let mat = Material::Dielectric(d);
    let r = Ray::new(Point::zero(), v3(2, -2, 0));
    let isect = Intersection { point: p3(1, 1, 1), normal: v3(0, 1, 0), material: mat, t: fi(1) };
    for _ in 0..8 {
        let unit = Vector::random_unit_vector(&mut rng);
        let coin = coin_from(&mut rng);
        let iact = mat.interact(r, isect, unit, coin).unwrap();
        assert_eq!(iact.attenuation, Color::white());
        assert_eq!(iact.scattered_ray.origin(), isect.point);
        // Every draw of the reflectance coin yields the analytic refraction
        // or the analytic reflection, never a third value.
        let eta = Fx::one().div(Fx::new(98304));
        let refracted = r.direction().normalize().refract(isect.normal, eta).unwrap();
        let reflected = r.direction().normalize().reflect(isect.normal);
        assert!(
            iact.scattered_ray.direction() == refracted
                || iact.scattered_ray.direction() == reflected
        );
    }
}

#[test]
fn dielectric_total_internal_reflection() {
    let mut rng = StdRng::seed_from_u64(15);
    let d = Dielectric::new(Fx::new(98304));
    let mat = Material::Dielectric(d);
    // The ray leaves the dense medium at 45 degrees: the stored normal is
    // the outward one, so the material flips it and uses the full index.
    let r = Ray::new(Point::zero(), v3(2, 2, 0));
    let isect = Intersection { point: p3(1, 1, 1), normal: v3(0, 1, 0), material: mat, t: fi(1) };
    let inward = isect.normal.neg();
    // Refraction is geometrically impossible here.
    assert_eq!(r.direction().normalize().refract(inward, Fx::new(98304)), None);
    // So whatever the coin, the scatter is the analytic reflection.
    let unit = Vector::random_unit_vector(&mut rng);
    let iact = mat.interact(r, isect, unit, Fx::new(65535)).unwrap();
    assert_eq!(
        iact.scattered_ray.direction(),
        r.direction().normalize().reflect(inward)
    );
}

#[test]
fn lambert_interact() {
    let mut rng = StdRng::seed_from_u64(12);
    let albedo = Color::new(fi(1), fi(1), fi(0));
    let l = Lambert::new(albedo);
    let mat = Material::Lambert(l);
    let r = Ray::new(Point::zero(), v3(2, -2, 0));
    let isect = Intersection { point: p3(1, 1, 1), normal: v3(0, 1, 0), material: mat, t: fi(1) };
    for _ in 0..8 {
        let unit = Vector::random_unit_vector(&mut rng);
        let coin = coin_from(&mut rng);
        let iact = mat.interact(r, isect, unit, coin).unwrap();
        assert_eq!(iact.attenuation, albedo);
        assert_eq!(iact.scattered_ray.origin(), isect.point);
        assert!(iact.scattered_ray.direction().dot(&isect.normal).raw >= 0);
    }
}

#[test]
fn metal_interact() {
    let mut rng = StdRng::seed_from_u64(13);
    let albedo = Color::new(fi(1), fi(1), fi(0));
    let m = Metal::new(albedo, Fx::new(0));
    let mat = Material::Metal(m);
    let r = Ray::new(Point::zero(), v3(2, -2, 0));
    let isect = Intersection { point: p3(1, 1, 1), normal: v3(0, 1, 0), material: mat, t: fi(1) };
    let unit = Vector::random_unit_vector(&mut rng);
    let coin = coin_from(&mut rng);
    let iact = mat.interact(r, isect, unit, coin).unwrap();
    assert_eq!(iact.attenuation, albedo);
    assert_eq!(iact.scattered_ray.origin(), isect.point);
    // With zero fuzz the scatter is deterministic: exactly the normalized
    // reflection, whatever unit vector was drawn.
    assert_eq!(
        iact.scattered_ray.direction(),
        r.direction().reflect(isect.normal).normalize()
    );
}

#[test]
fn absorbing_material() {
    let mut rng = StdRng::seed_from_u64(14);
    let mat = Material::Absorb;
    let r = Ray::new(Point::zero(), v3(2, -2, 0));
    let isect = Intersection { point: p3(1, 1, 1), normal: v3(0, 1, 0), material: mat, t: fi(1) };
    let unit = Vector::random_unit_vector(&mut rng);
    let coin = coin_from(&mut rng);
    assert!(mat.interact(r, isect, unit, coin).is_none());
}

#[test]
fn schlick_value() {
    // Schlick's approximation on a 45-degree incidence entering glass:
    // r0 + (1 - r0) * (1 - cos)^5 at fixed-point scale.
    let d = Dielectric::new(Fx::new(98304));
    let incident = v3(2, -2, 0).normalize();
    let normal = v3(0, 1, 0);
    let eta = Fx::one().div(Fx::new(98304));
    assert_eq!(d.schlick(incident, normal, eta), Fx::new(2756));
}

#[test]
fn metal_fuzz_clamped() {
    let albedo = Color::new(fi(1), fi(1), fi(1));
    assert_eq!(Metal::new(albedo, fi(3)).fuzz, Fx::one());
    assert_eq!(Metal::new(albedo, fi(-3)).fuzz, Fx::zero());
    assert_eq!(Metal::new(albedo, Fx::new(123)).fuzz, Fx::new(123));
}
