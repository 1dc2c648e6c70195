//! Vector algebra, mirrored from the original suite at fixed-point scale.

use rand::rngs::StdRng;
use rand::SeedableRng;
use raytracer::fixed::Fx;
use raytracer::vector::Vector;

fn fi(i: i64) -> Fx {
    Fx::from_int(i)
}

fn v3(x: i64, y: i64, z: i64) -> Vector {
    Vector::new(fi(x), fi(y), fi(z))
}

fn vraw(x: i64, y: i64, z: i64) -> Vector {
    Vector::new(Fx::new(x), Fx::new(y), Fx::new(z))
}

#[test]
fn vector_default() {
    assert_eq!(Vector::default(), v3(0, 0, 0));
}

#[test]
fn vector_operators() {
    let a = v3(1, 2, 3);
    let b = v3(2, 3, 4);
    let c = v3(3, 5, 7);
    let d = v3(2, 6, 12);
    let e = v3(0, -1, -2);
    let f = v3(6, 9, 12);
    let g = v3(6, 3, 2);
    let h = v3(-6, -3, -2);

    assert_eq!(a.add(b), c);
    assert_eq!(c.sub(b), a);
    assert_eq!(a.mul(b), d);
    assert_eq!(d.div(b), a);

    assert_eq!(a.add_scalar(fi(1)), b);
    assert_eq!(b.sub_scalar(fi(1)), a);
    assert_eq!(Vector::scalar_sub(fi(1), a), e);
    assert_eq!(b.scale(fi(3)), f);
    assert_eq!(f.div_scalar(fi(3)), b);
    assert_eq!(Vector::scalar_div(fi(6), g), a);

    assert_eq!(g.neg(), h);

    let mut v = b;
    v = v.add(a);
    assert_eq!(v, c);
    v = v.sub(b);
    assert_eq!(v, a);
    v = v.mul(b);
    assert_eq!(v, d);
    v = v.div(b);
    assert_eq!(v, a);
}

#[test]
fn vector_geometry() {
    let a = v3(3, 4, 5);
    assert_eq!(a.length_squared(), fi(50));
    // 65536 * sqrt(50), rounded down.
    assert_eq!(a.length(), Fx::new(463409));

    let b = a.normalize();
    assert_eq!(b, vraw(27804, 37072, 46341));
    // Unit length up to normalization rounding.
    assert!((b.length().raw - 65536).abs() <= 2);

    let c = v3(2, 1, 0);
    assert_eq!(a.dot(&c), fi(10));
    assert_eq!(c.dot(&a), fi(10));

    let d = v3(3, -3, 1);
    let e = v3(4, 9, 2);
    let f = v3(-15, -2, 39);
    assert_eq!(d.cross(&e), f);
    assert_eq!(e.cross(&d), f.neg());
    assert_eq!(d.cross(&d), Vector::default());
}

#[test]
fn reflect() {
    let a = Vector::default();
    let b = v3(2, -2, 2);
    let c = v3(2, 2, 2);
    let n = v3(0, 1, 0);
    assert_eq!(a.reflect(n), a);
    assert_eq!(b.reflect(n), c);
    assert_eq!(c.reflect(n), b);

    // Reflection negates the incidence dot product about an exact unit
    // normal, but reflecting twice is not the identity in general: a
    // diagonal unit normal perturbs the result by rounding.
    assert_eq!(b.reflect(n).dot(&n), b.dot(&n).neg());
    let diag = v3(1, 1, 0).normalize();
    let v = v3(1, 2, 3);
    assert_ne!(v.reflect(diag).reflect(diag), v);
}

#[test]
fn refract() {
    // normalize((sqrt(3), -1, 0)): 30 degrees off the downward normal.
    let a = Vector::new(fi(3).sqrt(), fi(-1), Fx::new(0)).normalize();
    assert_eq!(a, vraw(56755, -32768, 0));
    let n = v3(0, 1, 0);
    // No index change: the refracted vector is the incident vector.
    assert_eq!(a.refract(n, Fx::one()), Some(a));
    // Entering the denser medium bends toward the normal; the analytic
    // direction is normalize((1, -1, 0)), reproduced up to rounding.
    let eta_in = fi(2).div(fi(3)).sqrt();
    let b = v3(1, -1, 0).normalize();
    let r = a.refract(n, eta_in).unwrap();
    assert_eq!(r, vraw(46339, -46343, 0));
    assert!((r.x.raw - b.x.raw).abs() <= 2 && (r.y.raw - b.y.raw).abs() <= 2 && r.z.raw == 0);
    // Leaving it bends back to the original direction, up to rounding.
    let eta_out = fi(3).div(fi(2)).sqrt();
    let back = b.refract(n, eta_out).unwrap();
    assert!(
        (back.x.raw - a.x.raw).abs() <= 2 && (back.y.raw - a.y.raw).abs() <= 2 && back.z.raw == 0
    );
    // A ratio of two forces total internal reflection.
    assert_eq!(a.refract(n, fi(2)), None);
}

#[test]
fn near_zero() {
    let a = Vector::default();
    assert_eq!(a.near_zero(), true);
    // One raw unit, the scalar resolution, is no longer near zero.
    let b = vraw(1, 0, 0);
    assert_eq!(b.near_zero(), false);
    // Anything below the resolution is exactly zero.
    let c = vraw(0, 0, 0);
    assert_eq!(c.near_zero(), true);
}

#[test]
fn random() {
    let mut rng = StdRng::seed_from_u64(42);
    let a = Vector::random_unit_vector(&mut rng);
    let b = Vector::random_unit_vector(&mut rng);
    // Unit length up to normalization rounding, which grows coarse only for
    // improbably small draws.
    assert!((a.length().raw - 65536).abs() <= 64);
    assert!((b.length().raw - 65536).abs() <= 64);
    assert!(a.x.raw.abs() <= 65536 && a.y.raw.abs() <= 65536 && a.z.raw.abs() <= 65536);
}
