//! Linear RGB radiance values.
//!
//! A color reuses the vector arithmetic component-wise.  Values are not
//! constrained to the unit range in general, but every radiance the renderer
//! produces stays within it, which the camera's contracts state through
//! [`color_in_unit`].

use crate::fixed::SCALE;
use crate::vector::{vec_add, vec_div_scalar, vec_mul, vec_of, vec_scale, Vector};
use crate::fixed::Fx;
use vstd::prelude::*;

verus! {

/// RGB color over fixed-point scalars.
#[derive(Clone, Copy, Debug, PartialEq, Eq, Structural)]
pub struct Color {
    /// Color vector: x is red, y is green, z is blue.
    pub values: Vector,
}

/// Whether every channel lies in the unit range `[0, 1]`.
pub open spec fn color_in_unit(c: Color) -> bool {
    &&& 0 <= c.values.x.raw <= SCALE
    &&& 0 <= c.values.y.raw <= SCALE
    &&& 0 <= c.values.z.raw <= SCALE
}

impl Color {
    /// Creates an RGB color from channel values.
    pub fn new(r: Fx, g: Fx, b: Fx) -> (c: Color)
        ensures
            c.values == (Vector { x: r, y: g, z: b }),
    {
        Color { values: Vector::new(r, g, b) }
    }

    /// Black.
    pub fn black() -> (c: Color)
        ensures
            c.values == vec_of(0, 0, 0),
            color_in_unit(c),
    {
        Color { values: Vector::zero() }
    }

    /// White.
    pub fn white() -> (c: Color)
        ensures
            c.values == vec_of(SCALE as int, SCALE as int, SCALE as int),
            color_in_unit(c),
    {
        Color { values: Vector::new(Fx::one(), Fx::one(), Fx::one()) }
    }

    /// Red channel.
    pub fn r(&self) -> (v: Fx)
        ensures
            v == self.values.x,
    {
        self.values.x
    }

    /// Green channel.
    pub fn g(&self) -> (v: Fx)
        ensures
            v == self.values.y,
    {
        self.values.y
    }

    /// Blue channel.
    pub fn b(&self) -> (v: Fx)
        ensures
            v == self.values.z,
    {
        self.values.z
    }

    /// Channel-wise sum.
    pub fn add(self, o: Color) -> (c: Color)
        ensures
            c.values == vec_add(self.values, o.values),
    {
        Color { values: self.values.add(o.values) }
    }

    /// Channel-wise product: attenuation of one color by another.
    pub fn mul(self, o: Color) -> (c: Color)
        ensures
            c.values == vec_mul(self.values, o.values),
    {
        Color { values: self.values.mul(o.values) }
    }

    /// Scales every channel by a scalar.
    pub fn scale(self, s: Fx) -> (c: Color)
        ensures
            c.values == vec_scale(self.values, s.ival()),
    {
        Color { values: self.values.scale(s) }
    }

    /// Divides every channel by a scalar; used to average samples.
    pub fn div_scalar(self, s: Fx) -> (c: Color)
        ensures
            c.values == vec_div_scalar(self.values, s.ival()),
    {
        Color { values: self.values.div_scalar(s) }
    }

    /// Channel-wise difference.
    pub fn sub(self, o: Color) -> (c: Color)
        ensures
            c.values == crate::vector::vec_sub(self.values, o.values),
    {
        Color { values: self.values.sub(o.values) }
    }

    /// Channel-wise quotient.
    pub fn div(self, o: Color) -> (c: Color)
        ensures
            c.values == crate::vector::vec_div(self.values, o.values),
    {
        Color { values: self.values.div(o.values) }
    }

    /// Channel-wise negation.
    pub fn neg(self) -> (c: Color)
        ensures
            c.values == crate::vector::vec_neg(self.values),
    {
        Color { values: self.values.neg() }
    }

    /// Adds a broadcast scalar to every channel.
    pub fn add_scalar(self, s: Fx) -> (c: Color)
        ensures
            c.values == crate::vector::vec_add_scalar(self.values, s.ival()),
    {
        Color { values: self.values.add_scalar(s) }
    }

    /// Subtracts a broadcast scalar from every channel.
    pub fn sub_scalar(self, s: Fx) -> (c: Color)
        ensures
            c.values == crate::vector::vec_sub_scalar(self.values, s.ival()),
    {
        Color { values: self.values.sub_scalar(s) }
    }

    /// Subtracts every channel from a broadcast scalar.
    pub fn scalar_sub(s: Fx, a: Color) -> (c: Color)
        ensures
            c.values == crate::vector::vec_scalar_sub(s.ival(), a.values),
    {
        Color { values: Vector::scalar_sub(s, a.values) }
    }

    /// Divides a broadcast scalar by every channel.
    pub fn scalar_div(s: Fx, a: Color) -> (c: Color)
        ensures
            c.values == crate::vector::vec_scalar_div(s.ival(), a.values),
    {
        Color { values: Vector::scalar_div(s, a.values) }
    }
}

} // verus!
