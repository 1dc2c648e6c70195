//! Algebraic laws of the geometry and scattering kernels.
//!
//! The executable operations are pinned to fixed-point mirrors that round at
//! every step.  The laws below state the underlying identities at the exact
//! integer level — over the unrounded dot product, with unit lengths
//! expressed at a common scale — and, where rounding cancels, directly over
//! the mirrors themselves.

use crate::dielectric::{
    dielectric_direction, dielectric_eta, dielectric_normal, Dielectric,
};
use crate::fixed::{fx_mul, fx_sub, lemma_fx_one_mul, lemma_isqrt_unique, FX_MAX, SCALE};
use crate::ray::Ray;
use crate::shape::Intersection;
use crate::vector::{vec_dot, vec_normalize, vec_reflect, vec_refract, vec_sin2_t, Vector};
use vstd::prelude::*;

verus! {

/// The exact (unrounded) dot product of two integer triples.
pub open spec fn dot3(
    ax: int,
    ay: int,
    az: int,
    bx: int,
    by: int,
    bz: int,
) -> int {
    ax * bx + ay * by + az * bz
}

/// Reflection negates the incidence dot product, exactly.
///
/// For a normal `n` of squared magnitude `k` — the unit normal expressed at
/// scale `sqrt(k)` — and any vector `v`, the reflection `k*v - 2*dot(v,n)*n`
/// (the mirror formula `v - 2*dot(v,n)*n` cleared of the denominator `k`)
/// satisfies `dot(reflect(v,n), n) == -k*dot(v,n)`: the scaled image of
/// `-dot(v,n)`.  The executable reflection obeys this up to its per-component
/// rounding.  The companion identity `reflect(reflect(v,n),n) == v` does not
/// survive rounding and is not claimed.
pub proof fn lemma_reflect_dot(
    vx: int,
    vy: int,
    vz: int,
    nx: int,
    ny: int,
    nz: int,
    k: int,
)
    requires
        dot3(nx, ny, nz, nx, ny, nz) == k,
    ensures
        ({
            let d = dot3(vx, vy, vz, nx, ny, nz);
            dot3(
                k * vx - 2 * d * nx,
                k * vy - 2 * d * ny,
                k * vz - 2 * d * nz,
                nx,
                ny,
                nz,
            ) == -(k * d)
        }),
{
    let d = dot3(vx, vy, vz, nx, ny, nz);
    lemma_reflect_component(k, vx, d, nx);
    lemma_reflect_component(k, vy, d, ny);
    lemma_reflect_component(k, vz, d, nz);
    lemma_mul_distrib3(k, vx * nx, vy * ny, vz * nz);
    lemma_mul_distrib3(d, nx * nx, ny * ny, nz * nz);
    assert((k * vx - 2 * d * nx) * nx + (k * vy - 2 * d * ny) * ny + (k * vz - 2 * d * nz) * nz
        == k * (vx * nx) + k * (vy * ny) + k * (vz * nz) - 2 * (d * (nx * nx)) - 2 * (d * (ny
        * ny)) - 2 * (d * (nz * nz)));
    assert(k * (vx * nx) + k * (vy * ny) + k * (vz * nz) == k * d);
    assert(d * (nx * nx) + d * (ny * ny) + d * (nz * nz) == d * k);
    assert(k * d - 2 * (d * k) == -(k * d)) by (nonlinear_arith);
    assert(dot3(
        k * vx - 2 * d * nx,
        k * vy - 2 * d * ny,
        k * vz - 2 * d * nz,
        nx,
        ny,
        nz,
    ) == -(k * d));
}

/// At the y-axis unit normal — the other axes are symmetric — the
/// executable reflection mirror itself flips the incidence dot product
/// exactly: every product is by one or by zero, so no rounding intervenes.
/// Inputs whose doubled incidence component would saturate are excluded.
/// For general unit normals the identity holds at the exact integer level
/// (`lemma_reflect_dot`) and the rounded mirror can deviate by rounding.
pub proof fn lemma_reflect_dot_axis(v: Vector, n: Vector)
    requires
        n == crate::vector::vec_of(0, SCALE as int, 0),
        -(FX_MAX / 2) <= v.y.raw <= FX_MAX / 2,
    ensures
        vec_dot(vec_reflect(v, n), n) == crate::fixed::fx_neg(vec_dot(v, n)),
{
    let s = SCALE as int;
    assert(fx_mul(v.x.ival(), 0) == 0) by {
        assert(v.x.ival() * 0 == 0);
        vstd::arithmetic::div_mod::lemma_div_of0(s);
    }
    assert(fx_mul(v.z.ival(), 0) == 0) by {
        assert(v.z.ival() * 0 == 0);
        vstd::arithmetic::div_mod::lemma_div_of0(s);
    }
    lemma_fx_one_mul(v.y.ival());
    assert(v.y.ival() * s == s * v.y.ival());
    assert(fx_mul(v.y.ival(), s) == v.y.ival());
    let d = vec_dot(v, n);
    assert(d == v.y.ival());
    lemma_fx_one_mul(d + d);
    assert(fx_mul(0, d + d) == 0) by {
        assert(0 * (d + d) == 0);
        vstd::arithmetic::div_mod::lemma_div_of0(s);
    }
    let r = vec_reflect(v, n);
    assert(r.y.ival() == -d);
    lemma_fx_one_mul(-d);
    assert(fx_mul(r.x.ival(), 0) == 0) by {
        assert(r.x.ival() * 0 == 0);
        vstd::arithmetic::div_mod::lemma_div_of0(s);
    }
    assert(fx_mul(r.z.ival(), 0) == 0) by {
        assert(r.z.ival() * 0 == 0);
        vstd::arithmetic::div_mod::lemma_div_of0(s);
    }
}

/// One component of the reflection dot product, expanded.
proof fn lemma_reflect_component(k: int, v: int, d: int, n: int)
    ensures
        (k * v - 2 * d * n) * n == k * (v * n) - 2 * (d * (n * n)),
{
    assert((k * v - 2 * d * n) * n == k * (v * n) - 2 * (d * (n * n))) by (nonlinear_arith);
}

/// Distribution of a common factor over a sum of three terms.
proof fn lemma_mul_distrib3(m: int, a: int, b: int, c: int)
    ensures
        m * a + m * b + m * c == m * (a + b + c),
{
    assert(m * a + m * b + m * c == m * (a + b + c)) by (nonlinear_arith);
}

/// Distribution over a binary sum.
proof fn lemma_mul_distrib_add(a: int, b: int, c: int)
    ensures
        (a + b) * c == a * c + b * c,
{
    assert((a + b) * c == a * c + b * c) by (nonlinear_arith);
}

/// The square of a three-term sum, expanded.
proof fn lemma_sq_of_sum3(x: int, y: int, z: int)
    ensures
        (x + y + z) * (x + y + z) == x * x + y * y + z * z + 2 * (x * y) + 2 * (x * z) + 2 * (y
            * z),
{
    assert((x + y + z) * (x + y + z) == x * x + y * y + z * z + 2 * (x * y) + 2 * (x * z) + 2 * (y
        * z)) by (nonlinear_arith);
}

/// The square of a difference, expanded.
proof fn lemma_sq_of_diff(x: int, y: int)
    ensures
        (x - y) * (x - y) == x * x - 2 * (x * y) + y * y,
{
    assert((x - y) * (x - y) == x * x - 2 * (x * y) + y * y) by (nonlinear_arith);
}

/// The product of two three-term sums, expanded.
proof fn lemma_mul_sum3_sum3(p1: int, p2: int, p3: int, q1: int, q2: int, q3: int)
    ensures
        (p1 + p2 + p3) * (q1 + q2 + q3) == p1 * q1 + p1 * q2 + p1 * q3 + p2 * q1 + p2 * q2 + p2
            * q3 + p3 * q1 + p3 * q2 + p3 * q3,
{
    assert((p1 + p2 + p3) * (q1 + q2 + q3) == p1 * q1 + p1 * q2 + p1 * q3 + p2 * q1 + p2 * q2 + p2
        * q3 + p3 * q1 + p3 * q2 + p3 * q3) by (nonlinear_arith);
}

/// The square of a product is the product of the squares.
proof fn lemma_sq_mul(a: int, b: int)
    ensures
        (a * b) * (a * b) == (a * a) * (b * b),
{
    assert((a * b) * (a * b) == (a * a) * (b * b)) by (nonlinear_arith);
}

/// Exchanging the pairing of two products.
proof fn lemma_swap_mul(a1: int, b1: int, a2: int, b2: int)
    ensures
        (a1 * b1) * (a2 * b2) == (a1 * b2) * (a2 * b1),
{
    assert((a1 * b1) * (a2 * b2) == (a1 * b2) * (a2 * b1)) by (nonlinear_arith);
}

/// A square is nonnegative.
proof fn lemma_sq_nonneg(x: int)
    ensures
        x * x >= 0,
{
    assert(x * x >= 0) by (nonlinear_arith);
}

/// A value whose square is bounded by a square is bounded by the root.
proof fn lemma_bound_from_sq(d: int, m: int)
    requires
        d * d <= m * m,
        m >= 0,
    ensures
        -m <= d <= m,
{
    assert(d * d <= m * m && m >= 0 ==> -m <= d <= m) by (nonlinear_arith);
}

/// With no index change, refraction is the identity, exactly, on the mirror
/// itself.
///
/// For a refraction ratio of one, total internal reflection is impossible
/// and the refracted vector equals the incident vector: the transmitted sine
/// reduces to the incident sine and the parallel term cancels.  The statement
/// holds on the fixed-point mirror whenever the incidence cosine's square is
/// a multiple of the scale, so that no rounding intervenes; an incidence
/// cosine like one raw unit, whose square the rescaling floors away, shifts
/// the result by a raw unit and is excluded.
pub proof fn lemma_refract_eta_one(v: Vector, n: Vector, c: int)
    requires
        vec_dot(n, v) == -c,
        0 <= c <= SCALE,
        (c * c) % (SCALE as int) == 0,
        -FX_MAX <= v.x.raw,
        -FX_MAX <= v.y.raw,
        -FX_MAX <= v.z.raw,
    ensures
        vec_sin2_t(v, n, SCALE as int) <= SCALE,
        vec_refract(v, n, SCALE as int) == Some(v),
{
    let s = SCALE as int;
    // The incidence cosine is c itself: -dot(n, v) == c <= SCALE.
    lemma_fx_one_mul(s);
    // eta^2 == 1 exactly.
    let c2 = fx_mul(c, c);
    vstd::arithmetic::div_mod::lemma_div_pos_is_pos(c * c, s);
    crate::fixed::lemma_fx_mul_attenuates(c, c);
    // sin2_i == 1 - c^2, and multiplying by eta == 1 keeps it.
    lemma_fx_one_mul(fx_sub(s, c2));
    // cos_t == c: the square is exact, so the square root recovers c.
    vstd::arithmetic::div_mod::lemma_fundamental_div_mod(c * c, s);
    assert(c2 * s == c * c);
    assert(c * c >= 0) by (nonlinear_arith)
        requires
            c >= 0,
    ;
    assert(c * c < (c + 1) * (c + 1)) by (nonlinear_arith)
        requires
            c >= 0,
    ;
    lemma_isqrt_unique(c * c, c);
    assert(crate::fixed::fx_sqrt(c2) == c);
    // The parallel term vanishes: eta * c - cos_t == 0.
    lemma_fx_one_mul(c);
    // Scaling by eta == 1 and adding zero is the identity, component-wise.
    lemma_fx_one_mul(v.x.ival());
    lemma_fx_one_mul(v.y.ival());
    lemma_fx_one_mul(v.z.ival());
    assert(fx_mul(n.x.ival(), 0) == 0) by {
        assert(n.x.ival() * 0 == 0);
        vstd::arithmetic::div_mod::lemma_div_of0(s);
    }
    assert(fx_mul(n.y.ival(), 0) == 0) by {
        assert(n.y.ival() * 0 == 0);
        vstd::arithmetic::div_mod::lemma_div_of0(s);
    }
    assert(fx_mul(n.z.ival(), 0) == 0) by {
        assert(n.z.ival() * 0 == 0);
        vstd::arithmetic::div_mod::lemma_div_of0(s);
    }
}

/// Dielectric scattering returns the analytic reflection or the analytic
/// refraction, never a third value, for every draw of the reflectance coin.
pub proof fn lemma_dielectric_two_outcomes(
    d: Dielectric,
    incident_ray: Ray,
    isect: Intersection,
    coin: int,
)
    ensures
        ({
            let normal = dielectric_normal(incident_ray, isect);
            let eta = dielectric_eta(d, incident_ray, isect);
            let incident = vec_normalize(incident_ray.direction);
            let dir = dielectric_direction(d, incident_ray, isect, coin);
            dir == vec_reflect(incident, normal) || vec_refract(incident, normal, eta) == Some(
                dir,
            )
        }),
{
}

/// Diffuse scattering never points strictly into the surface, exactly.
///
/// For unit vectors `u` and `n` expressed at a common scale `k` (squared
/// magnitudes `k*k`), the exact dot product of `n + u` with `n` is
/// nonnegative, by the Cauchy-Schwarz bound `dot(u,n) >= -k*k`.  The
/// executable scatter direction obeys this up to normalization rounding of
/// the sampled unit vector — at most an epsilon below zero — apart from the
/// explicit degenerate fallback, which scatters along the bare normal.
#[verifier::rlimit(100)]
pub proof fn lemma_diffuse_above_surface(
    ux: int,
    uy: int,
    uz: int,
    nx: int,
    ny: int,
    nz: int,
    k: int,
)
    requires
        dot3(ux, uy, uz, ux, uy, uz) == k * k,
        dot3(nx, ny, nz, nx, ny, nz) == k * k,
    ensures
        dot3(nx + ux, ny + uy, nz + uz, nx, ny, nz) >= 0,
{
    let d = dot3(ux, uy, uz, nx, ny, nz);
    // Lagrange's identity in three dimensions, assembled monomial by
    // monomial: the square of the dot product plus the squares of the three
    // cross-product components equals the product of the squared magnitudes.
    lemma_sq_of_sum3(ux * nx, uy * ny, uz * nz);
    lemma_sq_of_diff(uy * nz, uz * ny);
    lemma_sq_of_diff(uz * nx, ux * nz);
    lemma_sq_of_diff(ux * ny, uy * nx);
    lemma_mul_sum3_sum3(ux * ux, uy * uy, uz * uz, nx * nx, ny * ny, nz * nz);
    lemma_sq_mul(ux, nx);
    lemma_sq_mul(uy, ny);
    lemma_sq_mul(uz, nz);
    lemma_sq_mul(uy, nz);
    lemma_sq_mul(uz, ny);
    lemma_sq_mul(uz, nx);
    lemma_sq_mul(ux, nz);
    lemma_sq_mul(ux, ny);
    lemma_sq_mul(uy, nx);
    lemma_swap_mul(ux, nx, uy, ny);
    lemma_swap_mul(ux, nx, uz, nz);
    lemma_swap_mul(uy, ny, uz, nz);
    assert(d * d + (uy * nz - uz * ny) * (uy * nz - uz * ny) + (uz * nx - ux * nz) * (uz * nx - ux
        * nz) + (ux * ny - uy * nx) * (ux * ny - uy * nx) == (ux * ux + uy * uy + uz * uz) * (nx
        * nx + ny * ny + nz * nz));
    // Cauchy-Schwarz, and from it the lower bound on the dot product.
    lemma_sq_nonneg(uy * nz - uz * ny);
    lemma_sq_nonneg(uz * nx - ux * nz);
    lemma_sq_nonneg(ux * ny - uy * nx);
    lemma_sq_nonneg(k);
    assert(d * d <= (k * k) * (k * k));
    lemma_bound_from_sq(d, k * k);
    // The dot product with the sum splits linearly.
    lemma_mul_distrib_add(nx, ux, nx);
    lemma_mul_distrib_add(ny, uy, ny);
    lemma_mul_distrib_add(nz, uz, nz);
    assert(dot3(nx + ux, ny + uy, nz + uz, nx, ny, nz) == (nx * nx + ny * ny + nz * nz) + d);
}

} // verus!
