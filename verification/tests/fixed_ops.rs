//! Exact behavior of the fixed-point scalar kernel.

use raytracer::fixed::{Fx, FX_MAX, SCALE};

fn fi(i: i64) -> Fx {
    Fx::from_int(i)
}

#[test]
fn scalar_arithmetic() {
    assert_eq!(fi(2).add(fi(3)), fi(5));
    assert_eq!(fi(2).sub(fi(3)), fi(-1));
    assert_eq!(fi(-4).neg(), fi(4));
    assert_eq!(fi(6).mul(fi(7)), fi(42));
    assert_eq!(fi(-6).mul(fi(7)), fi(-42));
    assert_eq!(fi(7).div(fi(2)), Fx::new(7 * SCALE / 2));
    assert_eq!(fi(-7).div(fi(2)), Fx::new(-(7 * SCALE / 2)));
    assert_eq!(fi(4).sqrt(), fi(2));
    assert_eq!(fi(9).sqrt(), fi(3));
}

#[test]
fn scalar_rounding() {
    // Multiplication floors: 3/65536 * 1/2 is 1.5 raw units, floored to 1
    // for the positive product and to -2 for the negative one.
    assert_eq!(Fx::new(3).mul(Fx::new(SCALE / 2)), Fx::new(1));
    assert_eq!(Fx::new(-3).mul(Fx::new(SCALE / 2)), Fx::new(-2));
    // Division truncates toward zero.
    assert_eq!(fi(7).div(fi(-2)), Fx::new(-(7 * SCALE / 2)));
    assert_eq!(Fx::one().div(fi(3)), Fx::new(SCALE / 3));
    assert_eq!(Fx::one().neg().div(fi(3)), Fx::new(-(SCALE / 3)));
    // The square root of 2 at scale 65536.
    assert_eq!(fi(2).sqrt(), Fx::new(92681));
    // Negative input saturates the square root at zero.
    assert_eq!(fi(-4).sqrt(), Fx::new(0));
}

#[test]
fn scalar_saturation() {
    assert_eq!(Fx::new(FX_MAX).add(Fx::one()), Fx::new(FX_MAX));
    assert_eq!(Fx::new(-FX_MAX).sub(Fx::one()), Fx::new(-FX_MAX));
    assert_eq!(Fx::new(FX_MAX).mul(fi(2)), Fx::new(FX_MAX));
    assert_eq!(Fx::new(-FX_MAX).mul(fi(2)), Fx::new(-FX_MAX));
    // Division by zero saturates in the direction of the dividend's sign.
    assert_eq!(fi(5).div(Fx::zero()), Fx::new(FX_MAX));
    assert_eq!(fi(-5).div(Fx::zero()), Fx::new(-FX_MAX));
    assert_eq!(Fx::zero().div(Fx::zero()), Fx::zero());
}
