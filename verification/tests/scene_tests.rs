//! Sphere intersection and the scene's nearest-hit search.

use raytracer::fixed::{Fx, FX_MAX};
use raytracer::interval::Interval;
use raytracer::material::Material;
use raytracer::point::Point;
use raytracer::ray::Ray;
use raytracer::scene::Scene;
use raytracer::shape::{Intersection, Shape};
use raytracer::sphere::Sphere;
use raytracer::vector::Vector;

fn fi(i: i64) -> Fx {
    Fx::from_int(i)
}

fn p3(x: i64, y: i64, z: i64) -> Point {
    Point::new(fi(x), fi(y), fi(z))
}

fn v3(x: i64, y: i64, z: i64) -> Vector {
    Vector::new(fi(x), fi(y), fi(z))
}

#[test]
fn scene_intersect() {
    let mut scene = Scene::new();
    let s1 = Sphere::new(p3(2, 0, 0), fi(1), Material::Absorb);
    let s2 = Sphere::new(p3(8, 0, 0), fi(1), Material::Absorb);
    let s3 = Sphere::new(p3(5, 0, 0), fi(1), Material::Absorb);
    scene.add(Shape::Sphere(s1));
    scene.add(Shape::Sphere(s2));
    scene.add(Shape::Sphere(s3));

    let r1 = Ray::new(Point::zero(), v3(1, 0, 0));
    let i1 = Interval::new(fi(0), fi(10));
    assert_eq!(scene.intersect(r1, i1), s1.intersect(r1, i1));
    let i2 = Interval::new(Fx::new(190054), fi(10));
    assert_eq!(scene.intersect(r1, i2), s1.intersect(r1, i2));
    let i3 = Interval::new(Fx::new(229376), fi(10));
    assert_eq!(scene.intersect(r1, i3), s3.intersect(r1, i3));
    let i4 = Interval::new(Fx::new(425984), fi(10));
    assert_eq!(scene.intersect(r1, i4), s2.intersect(r1, i4));
    let i5 = Interval::new(Fx::new(-FX_MAX), fi(1));
    assert_eq!(scene.intersect(r1, i5), None);

    let s4 = Sphere::new(Point::new(Fx::new(517734), fi(0), fi(0)), fi(1), Material::Absorb);
    scene.add(Shape::Sphere(s4));
    assert_eq!(scene.intersect(r1, i4), s4.intersect(r1, i4));
}

#[test]
fn sphere_intersect() {
    let s = Sphere::new(p3(0, 3, 0), fi(2), Material::Absorb);
    let inf = Fx::new(FX_MAX);

    // Outside ray, pointed through the center: it hits at the distance to
    // the center minus the radius, or plus it when the near root is ruled
    // out by the interval.
    let r1 = Ray::new(Point::zero(), v3(0, 1, 0));
    let i1 = Intersection {
        point: p3(0, 1, 0),
        material: Material::Absorb,
        normal: v3(0, -1, 0),
        t: fi(1),
    };
    let i2 = Intersection {
        point: p3(0, 5, 0),
        material: Material::Absorb,
        normal: v3(0, 1, 0),
        t: fi(5),
    };
    assert_eq!(s.intersect(r1, Interval::new(fi(0), inf)), Some(i1));
    assert_eq!(s.intersect(r1, Interval::new(fi(1), inf)), Some(i2));
    assert_eq!(s.intersect(r1, Interval::new(fi(2), inf)), Some(i2));
    assert_eq!(s.intersect(r1, Interval::new(fi(0), fi(1))), None);
    assert_eq!(s.intersect(r1, Interval::new(fi(5), inf)), None);

    // Inside ray, cast from the center: both roots sit a radius away.
    let r2 = Ray::new(p3(0, 3, 0), v3(0, 1, 0));
    let i3 = Intersection {
        point: p3(0, 5, 0),
        material: Material::Absorb,
        normal: v3(0, 1, 0),
        t: fi(2),
    };
    let i4 = Intersection {
        point: p3(0, 1, 0),
        material: Material::Absorb,
        normal: v3(0, -1, 0),
        t: fi(-2),
    };
    assert_eq!(s.intersect(r2, Interval::new(fi(0), inf)), Some(i3));
    assert_eq!(s.intersect(r2, Interval::new(Fx::new(-FX_MAX), inf)), Some(i4));
    assert_eq!(s.intersect(r2, Interval::new(fi(-2), fi(2))), None);

    // Parallel ray: a negative discriminant, no intersection.
    let r3 = Ray::new(Point::zero(), v3(1, 0, 1));
    assert_eq!(s.intersect(r3, Interval::new(Fx::new(-FX_MAX), inf)), None);
}
