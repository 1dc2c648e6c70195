//! Points and rays.

use raytracer::fixed::Fx;
use raytracer::point::Point;
use raytracer::ray::Ray;
use raytracer::vector::Vector;

fn fi(i: i64) -> Fx {
    Fx::from_int(i)
}

fn p3(x: i64, y: i64, z: i64) -> Point {
    Point::new(fi(x), fi(y), fi(z))
}

fn v3(x: i64, y: i64, z: i64) -> Vector {
    Vector::new(fi(x), fi(y), fi(z))
}

#[test]
fn point_operators() {
    let a = p3(1, 2, 3);
    let b = p3(4, 2, 1);
    let ab = b.sub(a);
    assert_eq!(ab, v3(3, 0, -2));
    assert_eq!(a.add(ab), b);
    assert_eq!(b.sub_vector(ab), a);
}

#[test]
fn at() {
    let o = p3(1, 2, 3);
    let d = v3(2, 3, 4);
    let r = Ray::new(o, d);
    assert_eq!(r.at(fi(0)), o);
    assert_eq!(r.at(fi(1)), o.add(d));
    assert_eq!(r.at(fi(-2)), p3(-3, -4, -5));
}
