//! Three-dimensional vectors over fixed-point scalars.
//!
//! Every executable operation is pinned to a spec-level mirror built from the
//! scalar mirrors in [`crate::fixed`], so callers reason about vector algebra
//! purely at the level of raw integer values.

use crate::fixed::{fx_add, fx_div, fx_mul, fx_neg, fx_of, fx_sqrt, fx_sub, Fx, SCALE};
use vstd::prelude::*;

verus! {

/// Free displacement in 3-dimensional space.
#[derive(Clone, Copy, Debug, PartialEq, Eq, Structural)]
pub struct Vector {
    /// X component.
    pub x: Fx,
    /// Y component.
    pub y: Fx,
    /// Z component.
    pub z: Fx,
}

/// Vector from raw component values; exact for saturated-range inputs.
pub open spec fn vec_of(x: int, y: int, z: int) -> Vector {
    Vector { x: fx_of(x), y: fx_of(y), z: fx_of(z) }
}

/// Mirror of component-wise addition.
pub open spec fn vec_add(a: Vector, b: Vector) -> Vector {
    vec_of(
        fx_add(a.x.ival(), b.x.ival()),
        fx_add(a.y.ival(), b.y.ival()),
        fx_add(a.z.ival(), b.z.ival()),
    )
}

/// Mirror of component-wise subtraction.
pub open spec fn vec_sub(a: Vector, b: Vector) -> Vector {
    vec_of(
        fx_sub(a.x.ival(), b.x.ival()),
        fx_sub(a.y.ival(), b.y.ival()),
        fx_sub(a.z.ival(), b.z.ival()),
    )
}

/// Mirror of negation.
pub open spec fn vec_neg(a: Vector) -> Vector {
    vec_of(fx_neg(a.x.ival()), fx_neg(a.y.ival()), fx_neg(a.z.ival()))
}

/// Mirror of component-wise multiplication.
pub open spec fn vec_mul(a: Vector, b: Vector) -> Vector {
    vec_of(
        fx_mul(a.x.ival(), b.x.ival()),
        fx_mul(a.y.ival(), b.y.ival()),
        fx_mul(a.z.ival(), b.z.ival()),
    )
}

/// Mirror of scaling by a scalar raw value.
pub open spec fn vec_scale(a: Vector, s: int) -> Vector {
    vec_of(fx_mul(a.x.ival(), s), fx_mul(a.y.ival(), s), fx_mul(a.z.ival(), s))
}

/// Mirror of component-wise division by a scalar raw value.
pub open spec fn vec_div_scalar(a: Vector, s: int) -> Vector {
    vec_of(fx_div(a.x.ival(), s), fx_div(a.y.ival(), s), fx_div(a.z.ival(), s))
}

/// Mirror of component-wise division.
pub open spec fn vec_div(a: Vector, b: Vector) -> Vector {
    vec_of(
        fx_div(a.x.ival(), b.x.ival()),
        fx_div(a.y.ival(), b.y.ival()),
        fx_div(a.z.ival(), b.z.ival()),
    )
}

/// Mirror of adding a broadcast scalar to every component.
pub open spec fn vec_add_scalar(a: Vector, s: int) -> Vector {
    vec_of(fx_add(a.x.ival(), s), fx_add(a.y.ival(), s), fx_add(a.z.ival(), s))
}

/// Mirror of subtracting a broadcast scalar from every component.
pub open spec fn vec_sub_scalar(a: Vector, s: int) -> Vector {
    vec_of(fx_sub(a.x.ival(), s), fx_sub(a.y.ival(), s), fx_sub(a.z.ival(), s))
}

/// Mirror of subtracting every component from a broadcast scalar.
pub open spec fn vec_scalar_sub(s: int, a: Vector) -> Vector {
    vec_of(fx_sub(s, a.x.ival()), fx_sub(s, a.y.ival()), fx_sub(s, a.z.ival()))
}

/// Mirror of dividing a broadcast scalar by every component.
pub open spec fn vec_scalar_div(s: int, a: Vector) -> Vector {
    vec_of(fx_div(s, a.x.ival()), fx_div(s, a.y.ival()), fx_div(s, a.z.ival()))
}

/// Mirror of the dot product: the three rescaled products folded left to
/// right, as the executable code computes them.
pub open spec fn vec_dot(a: Vector, b: Vector) -> int {
    fx_add(
        fx_add(fx_mul(a.x.ival(), b.x.ival()), fx_mul(a.y.ival(), b.y.ival())),
        fx_mul(a.z.ival(), b.z.ival()),
    )
}

/// Mirror of the squared length.
pub open spec fn vec_len_sq(a: Vector) -> int {
    vec_dot(a, a)
}

/// Mirror of the length.
pub open spec fn vec_len(a: Vector) -> int {
    fx_sqrt(vec_len_sq(a))
}

/// Mirror of normalization: each component divided by the length.  A vector
/// whose length underflows to zero saturates component-wise, as division by
/// zero does.
pub open spec fn vec_normalize(a: Vector) -> Vector {
    vec_div_scalar(a, vec_len(a))
}

/// Mirror of reflection about a plane normal: `v - 2 * dot(v, n) * n`.
pub open spec fn vec_reflect(v: Vector, n: Vector) -> Vector {
    vec_sub(v, vec_scale(n, fx_add(vec_dot(v, n), vec_dot(v, n))))
}

/// Mirror of the incidence cosine used by refraction: `min(-dot(n, v), 1)`.
pub open spec fn vec_cos_i(v: Vector, n: Vector) -> int {
    let c = fx_neg(vec_dot(n, v));
    if c > SCALE {
        SCALE as int
    } else {
        c
    }
}

/// Mirror of the squared transmitted sine of refraction:
/// `eta^2 * (1 - cos_i^2)`.
pub open spec fn vec_sin2_t(v: Vector, n: Vector, eta: int) -> int {
    fx_mul(fx_mul(eta, eta), fx_sub(SCALE as int, fx_mul(vec_cos_i(v, n), vec_cos_i(v, n))))
}

/// Mirror of refraction by Snell's law: the transmitted vector, or nothing
/// under total internal reflection.
pub open spec fn vec_refract(v: Vector, n: Vector, eta: int) -> Option<Vector> {
    let cos_i = vec_cos_i(v, n);
    let sin2_t = vec_sin2_t(v, n, eta);
    if sin2_t > SCALE {
        None
    } else {
        let cos_t = fx_sqrt(fx_sub(SCALE as int, sin2_t));
        Some(vec_add(vec_scale(v, eta), vec_scale(n, fx_sub(fx_mul(eta, cos_i), cos_t))))
    }
}

/// Mirror of the near-zero test: every component smaller in magnitude than
/// one raw unit, the resolution of the scalar type.
pub open spec fn vec_near_zero(a: Vector) -> bool {
    a.x.raw == 0 && a.y.raw == 0 && a.z.raw == 0
}

impl Vector {
    /// Creates a 3-dimensional vector from components.
    pub fn new(x: Fx, y: Fx, z: Fx) -> (r: Vector)
        ensures
            r == (Vector { x, y, z }),
    {
        Vector { x, y, z }
    }

    /// X component.
    pub fn x(&self) -> (r: Fx)
        ensures
            r == self.x,
    {
        self.x
    }

    /// Y component.
    pub fn y(&self) -> (r: Fx)
        ensures
            r == self.y,
    {
        self.y
    }

    /// Z component.
    pub fn z(&self) -> (r: Fx)
        ensures
            r == self.z,
    {
        self.z
    }

    /// Component-wise sum.
    pub fn add(self, o: Vector) -> (r: Vector)
        ensures
            r == vec_add(self, o),
    {
        Vector { x: self.x.add(o.x), y: self.y.add(o.y), z: self.z.add(o.z) }
    }

    /// Component-wise difference.
    pub fn sub(self, o: Vector) -> (r: Vector)
        ensures
            r == vec_sub(self, o),
    {
        Vector { x: self.x.sub(o.x), y: self.y.sub(o.y), z: self.z.sub(o.z) }
    }

    /// Component-wise negation.
    pub fn neg(self) -> (r: Vector)
        ensures
            r == vec_neg(self),
    {
        Vector { x: self.x.neg(), y: self.y.neg(), z: self.z.neg() }
    }

    /// Component-wise product.
    pub fn mul(self, o: Vector) -> (r: Vector)
        ensures
            r == vec_mul(self, o),
    {
        Vector { x: self.x.mul(o.x), y: self.y.mul(o.y), z: self.z.mul(o.z) }
    }

    /// Scales every component by a scalar.
    pub fn scale(self, s: Fx) -> (r: Vector)
        ensures
            r == vec_scale(self, s.ival()),
    {
        Vector { x: self.x.mul(s), y: self.y.mul(s), z: self.z.mul(s) }
    }

    /// Divides every component by a scalar.
    pub fn div_scalar(self, s: Fx) -> (r: Vector)
        ensures
            r == vec_div_scalar(self, s.ival()),
    {
        Vector { x: self.x.div(s), y: self.y.div(s), z: self.z.div(s) }
    }

    /// Component-wise quotient.
    pub fn div(self, o: Vector) -> (r: Vector)
        ensures
            r == vec_div(self, o),
    {
        Vector { x: self.x.div(o.x), y: self.y.div(o.y), z: self.z.div(o.z) }
    }

    /// Adds a broadcast scalar to every component.
    pub fn add_scalar(self, s: Fx) -> (r: Vector)
        ensures
            r == vec_add_scalar(self, s.ival()),
    {
        Vector { x: self.x.add(s), y: self.y.add(s), z: self.z.add(s) }
    }

    /// Subtracts a broadcast scalar from every component.
    pub fn sub_scalar(self, s: Fx) -> (r: Vector)
        ensures
            r == vec_sub_scalar(self, s.ival()),
    {
        Vector { x: self.x.sub(s), y: self.y.sub(s), z: self.z.sub(s) }
    }

    /// Subtracts every component from a broadcast scalar.
    pub fn scalar_sub(s: Fx, a: Vector) -> (r: Vector)
        ensures
            r == vec_scalar_sub(s.ival(), a),
    {
        Vector { x: s.sub(a.x), y: s.sub(a.y), z: s.sub(a.z) }
    }

    /// Divides a broadcast scalar by every component.
    pub fn scalar_div(s: Fx, a: Vector) -> (r: Vector)
        ensures
            r == vec_scalar_div(s.ival(), a),
    {
        Vector { x: s.div(a.x), y: s.div(a.y), z: s.div(a.z) }
    }

    /// Dot product with another vector.
    pub fn dot(&self, o: &Vector) -> (r: Fx)
        ensures
            r.ival() == vec_dot(*self, *o),
    {
        self.x.mul(o.x).add(self.y.mul(o.y)).add(self.z.mul(o.z))
    }

    /// Squared length of the vector.
    pub fn length_squared(&self) -> (r: Fx)
        ensures
            r.ival() == vec_len_sq(*self),
    {
        self.dot(self)
    }

    /// Length of the vector.
    pub fn length(&self) -> (r: Fx)
        ensures
            r.ival() == vec_len(*self),
    {
        self.length_squared().sqrt()
    }

    /// Normalizes the vector to unit length, up to fixed-point rounding.  A
    /// vector of length zero saturates component-wise.
    pub fn normalize(self) -> (r: Vector)
        ensures
            r == vec_normalize(self),
    {
        let l = self.length();
        self.div_scalar(l)
    }

    /// Reflects the vector at the plane represented by the normal.
    pub fn reflect(self, normal: Vector) -> (r: Vector)
        ensures
            r == vec_reflect(self, normal),
    {
        let d = self.dot(&normal);
        self.sub(normal.scale(d.add(d)))
    }

    /// Refracts the (normalized) vector at the plane represented by the
    /// normal, with the given refraction ratio.  Returns nothing exactly when
    /// the squared transmitted sine exceeds one: total internal reflection.
    pub fn refract(self, normal: Vector, etai_over_etat: Fx) -> (r: Option<Vector>)
        ensures
            r == vec_refract(self, normal, etai_over_etat.ival()),
            r is None <==> vec_sin2_t(self, normal, etai_over_etat.ival()) > SCALE,
    {
        let d = normal.dot(&self).neg();
        let one = Fx::one();
        let cos_i = if d.raw > one.raw {
            one
        } else {
            d
        };
        let sin2_i = one.sub(cos_i.mul(cos_i));
        let sin2_t = etai_over_etat.mul(etai_over_etat).mul(sin2_i);
        if sin2_t.raw > SCALE {
            return None;
        }
        let cos_t = one.sub(sin2_t).sqrt();
        let t = self.scale(etai_over_etat).add(
            normal.scale(etai_over_etat.mul(cos_i).sub(cos_t)),
        );
        Some(t)
    }

    /// Whether the vector is within one raw unit of zero in every component.
    pub fn near_zero(&self) -> (r: bool)
        ensures
            r == vec_near_zero(*self),
    {
        self.x.raw == 0 && self.y.raw == 0 && self.z.raw == 0
    }

    /// Cross product with another vector, by the right-handed formula.
    pub fn cross(&self, o: &Vector) -> (r: Vector)
        ensures
            r == vec_cross(*self, *o),
    {
        Vector {
            x: self.y.mul(o.z).sub(self.z.mul(o.y)),
            y: self.z.mul(o.x).sub(self.x.mul(o.z)),
            z: self.x.mul(o.y).sub(self.y.mul(o.x)),
        }
    }

    /// The zero vector.
    pub fn zero() -> (r: Vector)
        ensures
            r == vec_of(0, 0, 0),
    {
        Vector { x: Fx::zero(), y: Fx::zero(), z: Fx::zero() }
    }
}

impl Default for Vector {
    /// The default vector, with all components zero.
    fn default() -> (r: Vector)
        ensures
            r == vec_of(0, 0, 0),
    {
        Vector { x: Fx { raw: 0 }, y: Fx { raw: 0 }, z: Fx { raw: 0 } }
    }
}

/// Mirror of the cross product.
pub open spec fn vec_cross(a: Vector, b: Vector) -> Vector {
    vec_of(
        fx_sub(fx_mul(a.y.ival(), b.z.ival()), fx_mul(a.z.ival(), b.y.ival())),
        fx_sub(fx_mul(a.z.ival(), b.x.ival()), fx_mul(a.x.ival(), b.z.ival())),
        fx_sub(fx_mul(a.x.ival(), b.y.ival()), fx_mul(a.y.ival(), b.x.ival())),
    )
}

} // verus!
