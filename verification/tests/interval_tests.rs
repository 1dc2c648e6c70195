//! The open interval of ray parameters.

use raytracer::fixed::{Fx, FX_MAX};
use raytracer::interval::Interval;

fn fi(i: i64) -> Fx {
    Fx::from_int(i)
}

#[test]
fn contains() {
    let a = Interval::new(fi(2), fi(5));
    assert_eq!(a.contains(fi(0)), false);
    assert_eq!(a.contains(fi(2)), false);
    assert_eq!(a.contains(Fx::new(2 * 65536 + 1)), true);
    assert_eq!(a.contains(Fx::new(5 * 65536 - 1)), true);
    assert_eq!(a.contains(fi(5)), false);
    assert_eq!(a.contains(fi(7)), false);
}

#[test]
fn infinity() {
    // The saturation limits stand in for the infinities.
    let a = Interval::new(Fx::new(-FX_MAX), Fx::new(FX_MAX));
    assert_eq!(a.contains(Fx::new(-FX_MAX)), false);
    assert_eq!(a.contains(Fx::new(-FX_MAX + 1)), true);
    assert_eq!(a.contains(Fx::new(FX_MAX - 1)), true);
    assert_eq!(a.contains(Fx::new(FX_MAX)), false);

    let b = Interval::new(Fx::new(FX_MAX), Fx::new(-FX_MAX));
    assert_eq!(b.contains(Fx::new(-FX_MAX)), false);
    assert_eq!(b.contains(Fx::new(-FX_MAX + 1)), false);
    assert_eq!(b.contains(Fx::new(FX_MAX - 1)), false);
    assert_eq!(b.contains(Fx::new(FX_MAX)), false);
}
