//! Color arithmetic, mirrored from the original suite at fixed-point scale.

use raytracer::color::Color;
use raytracer::fixed::Fx;

fn fi(i: i64) -> Fx {
    Fx::from_int(i)
}

fn c3(r: i64, g: i64, b: i64) -> Color {
    Color::new(fi(r), fi(g), fi(b))
}

#[test]
fn color_operators() {
    let a = c3(1, 2, 3);
    let b = c3(2, 3, 4);
    let c = c3(3, 5, 7);
    let d = c3(2, 6, 12);
    let e = c3(0, -1, -2);
    let f = c3(6, 9, 12);
    let g = c3(6, 3, 2);
    let h = c3(-6, -3, -2);

    assert_eq!(a.add(b), c);
    assert_eq!(c.sub(b), a);
    assert_eq!(a.mul(b), d);
    assert_eq!(d.div(b), a);

    assert_eq!(a.add_scalar(fi(1)), b);
    assert_eq!(b.sub_scalar(fi(1)), a);
    assert_eq!(Color::scalar_sub(fi(1), a), e);
    assert_eq!(b.scale(fi(3)), f);
    assert_eq!(f.div_scalar(fi(3)), b);
    assert_eq!(Color::scalar_div(fi(6), g), a);

    assert_eq!(g.neg(), h);

    let mut v = b;
    v = v.add(a);
    assert_eq!(v, c);
    v = v.sub(b);
    assert_eq!(v, a);
    v = v.mul(b);
    assert_eq!(v, d);
    v = v.div(b);
    assert_eq!(v, a);

    assert_eq!(Color::black(), c3(0, 0, 0));
    assert_eq!(Color::white(), c3(1, 1, 1));
}
