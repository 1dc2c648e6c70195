//! Random sampling: the single trusted gateway to the random number
//! generator, and the unit-vector sampler built on it.
//!
//! Every random quantity the renderer consumes is drawn here and handed to
//! the deterministic scattering and shading logic as a plain value, so each
//! worker owns its generator explicitly and a render is reproducible given a
//! seed.

use crate::fixed::{Fx, SCALE};
use crate::vector::{vec_len_sq, vec_normalize, vec_of, Vector};
use vstd::prelude::*;

verus! {

/// Mirror of the clamp into the unit interval `[-1, 1]`.
pub open spec fn fx_clamp_unit(v: int) -> int {
    if v > SCALE {
        SCALE as int
    } else if v < -SCALE {
        -(SCALE as int)
    } else {
        v
    }
}

/// Whether `d` lies in the sampling cube: each component drawn uniformly
/// from `[-1, 1)`.
pub open spec fn in_sample_cube(d: Vector) -> bool {
    &&& -SCALE <= d.x.raw < SCALE
    &&& -SCALE <= d.y.raw < SCALE
    &&& -SCALE <= d.z.raw < SCALE
}

/// Mirror of the unit sampler on a given draw: the component-clamped
/// normalization of the draw, or the z-axis unit vector for a draw whose
/// squared length underflows to zero.
pub open spec fn unit_sample_of(d: Vector) -> Vector {
    if vec_len_sq(d) <= 0 {
        vec_of(0, 0, SCALE as int)
    } else {
        let n = vec_normalize(d);
        vec_of(fx_clamp_unit(n.x.ival()), fx_clamp_unit(n.y.ival()), fx_clamp_unit(n.z.ival()))
    }
}

#[verifier::external_type_specification]
#[verifier::external_body]
pub struct ExStdRng(rand::rngs::StdRng);

/// Relies on rand's `Rng::gen_range` over the half-open range `lo..hi`: the
/// draw lies in the range, and the call panics only on an empty range, which
/// the precondition excludes.  Nothing more is assumed of the draw.
#[verifier::external_body]
pub(crate) fn rand_raw(rng: &mut rand::rngs::StdRng, lo: i64, hi: i64) -> (r: i64)
    requires
        lo < hi,
    ensures
        lo <= r < hi,
{
    rand::Rng::gen_range(rng, lo..hi)
}

/// Clamps a scalar into the unit interval `[-1, 1]`.
fn clamp_unit(f: Fx) -> (r: Fx)
    ensures
        r.raw == fx_clamp_unit(f.raw as int),
{
    if f.raw > SCALE {
        Fx::one()
    } else if f.raw < -SCALE {
        Fx::one().neg()
    } else {
        f
    }
}

impl Vector {
    /// Generates a random vector of unit length, up to fixed-point rounding:
    /// each component is drawn uniformly from `[-1, 1)`, the draw is
    /// normalized, and the result is clamped component-wise into `[-1, 1]` to
    /// bound normalization rounding.  A draw whose squared length underflows
    /// to zero falls back to the z-axis unit vector.  The result is always
    /// the sampler mirror of some draw from the cube — never anything else.
    pub fn random_unit_vector(rng: &mut rand::rngs::StdRng) -> (r: Vector)
        ensures
            -SCALE <= r.x.raw <= SCALE,
            -SCALE <= r.y.raw <= SCALE,
            -SCALE <= r.z.raw <= SCALE,
            exists|d: Vector| in_sample_cube(d) && r == #[trigger] unit_sample_of(d),
    {
        let x = Fx::new(rand_raw(rng, -SCALE, SCALE));
        let y = Fx::new(rand_raw(rng, -SCALE, SCALE));
        let z = Fx::new(rand_raw(rng, -SCALE, SCALE));
        let v = Vector::new(x, y, z);
        if v.length_squared().raw <= 0 {
            let fallback = Vector::new(Fx::zero(), Fx::zero(), Fx::one());
            proof {
                assert(in_sample_cube(v) && fallback == unit_sample_of(v));
            }
            return fallback;
        }
        let n = v.normalize();
        let r = Vector { x: clamp_unit(n.x), y: clamp_unit(n.y), z: clamp_unit(n.z) };
        proof {
            assert(in_sample_cube(v) && r == unit_sample_of(v));
        }
        r
    }
}

} // verus!
