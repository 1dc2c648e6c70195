//! Fixed-point scalar arithmetic.
//!
//! A scalar is a signed 64-bit raw value interpreted at a fixed scale of
//! `SCALE` raw units per 1.0.  All operations are total: results outside the
//! representable range saturate at `FX_MAX` / `-FX_MAX`, and the quotient of a
//! division by zero saturates in the direction of the dividend's sign.  Each
//! executable operation is pinned exactly to a spec-level mirror over `int`.

use vstd::prelude::*;

verus! {

/// Raw units per 1.0.
pub const SCALE: i64 = 65536;

/// Largest raw magnitude a scalar can carry.
pub const FX_MAX: i64 = 0x7fff_ffff_ffff_ffff;

/// Fixed-point scalar: the represented value is `raw / SCALE`.
#[derive(Clone, Copy, Debug, PartialEq, Eq, Structural)]
pub struct Fx {
    /// Raw value at scale `SCALE`.
    pub raw: i64,
}

/// Saturation of an unbounded result into the symmetric representable range.
pub open spec fn fx_sat(x: int) -> int {
    if x > FX_MAX {
        FX_MAX as int
    } else if x < -FX_MAX {
        -FX_MAX as int
    } else {
        x
    }
}

/// Mirror of addition: exact sum, saturated.
pub open spec fn fx_add(a: int, b: int) -> int {
    fx_sat(a + b)
}

/// Mirror of subtraction: exact difference, saturated.
pub open spec fn fx_sub(a: int, b: int) -> int {
    fx_sat(a - b)
}

/// Mirror of negation, saturated.
pub open spec fn fx_neg(a: int) -> int {
    fx_sat(-a)
}

/// Mirror of multiplication: the exact product rescaled by a floor division,
/// then saturated.
pub open spec fn fx_mul(a: int, b: int) -> int {
    fx_sat((a * b) / (SCALE as int))
}

/// Magnitude of an unbounded value.
pub open spec fn fx_abs(x: int) -> int {
    if x < 0 {
        -x
    } else {
        x
    }
}

/// Mirror of division: magnitudes are divided with the quotient rounded
/// toward zero, the sign is reapplied, and the result saturates.  A zero
/// divisor saturates in the direction of the dividend's sign.
pub open spec fn fx_div(a: int, b: int) -> int {
    if b == 0 {
        if a > 0 {
            FX_MAX as int
        } else if a < 0 {
            -FX_MAX as int
        } else {
            0
        }
    } else {
        let q = (fx_abs(a) * SCALE) / fx_abs(b);
        if (a < 0) != (b < 0) {
            fx_sat(-q)
        } else {
            fx_sat(q)
        }
    }
}

/// Integer square root: the greatest `r` with `r * r <= n` (zero for `n <= 0`).
pub open spec fn isqrt(n: int) -> int
    decreases n,
{
    if n <= 0 {
        0
    } else {
        let r = isqrt(n - 1);
        if (r + 1) * (r + 1) <= n {
            r + 1
        } else {
            r
        }
    }
}

/// Mirror of the square root: the root of a raw value `a` at scale `SCALE`
/// is the integer square root of `a * SCALE` (zero for negative input).
pub open spec fn fx_sqrt(a: int) -> int {
    if a <= 0 {
        0
    } else {
        isqrt(a * SCALE)
    }
}

/// The scalar whose raw value is `v`; meaningful for `v` in the saturated
/// range, where the coercion is exact.
pub open spec fn fx_of(v: int) -> Fx {
    Fx { raw: v as i64 }
}

impl Fx {
    /// The raw value as a mathematical integer.
    pub open spec fn ival(self) -> int {
        self.raw as int
    }

    /// Scalar from a raw value at scale `SCALE`.
    pub fn new(raw: i64) -> (r: Fx)
        ensures
            r.raw == raw,
    {
        Fx { raw }
    }

    /// Scalar representing the integer `i`, saturated.
    pub fn from_int(i: i64) -> (r: Fx)
        ensures
            r.raw == fx_sat(i * SCALE),
    {
        proof {
            lemma_i64_product_bounded(i as int, SCALE as int);
        }
        let wide: i128 = (i as i128) * (SCALE as i128);
        clamp_raw(wide)
    }

    /// Zero.
    pub fn zero() -> (r: Fx)
        ensures
            r.raw == 0,
    {
        Fx { raw: 0 }
    }

    /// One.
    pub fn one() -> (r: Fx)
        ensures
            r.raw == SCALE,
    {
        Fx { raw: SCALE }
    }

    /// Saturating addition.
    pub fn add(self, other: Fx) -> (r: Fx)
        ensures
            r.raw == fx_add(self.raw as int, other.raw as int),
    {
        clamp_raw((self.raw as i128) + (other.raw as i128))
    }

    /// Saturating subtraction.
    pub fn sub(self, other: Fx) -> (r: Fx)
        ensures
            r.raw == fx_sub(self.raw as int, other.raw as int),
    {
        clamp_raw((self.raw as i128) - (other.raw as i128))
    }

    /// Saturating negation.
    pub fn neg(self) -> (r: Fx)
        ensures
            r.raw == fx_neg(self.raw as int),
    {
        clamp_raw(-(self.raw as i128))
    }

    /// Saturating fixed-point multiplication.
    pub fn mul(self, other: Fx) -> (r: Fx)
        ensures
            r.raw == fx_mul(self.raw as int, other.raw as int),
    {
        proof {
            lemma_i64_product_bounded(self.raw as int, other.raw as int);
        }
        let p: i128 = (self.raw as i128) * (other.raw as i128);
        let q = floor_div_scale(p);
        clamp_raw(q)
    }

    /// Saturating fixed-point division, rounded toward zero.
    pub fn div(self, other: Fx) -> (r: Fx)
        ensures
            r.raw == fx_div(self.raw as int, other.raw as int),
    {
        if other.raw == 0 {
            if self.raw > 0 {
                Fx { raw: FX_MAX }
            } else if self.raw < 0 {
                Fx { raw: -FX_MAX }
            } else {
                Fx { raw: 0 }
            }
        } else {
            let na = abs_wide(self.raw);
            let nb = abs_wide(other.raw);
            proof {
                assert(na * (SCALE as u128) <= 0x1_0000_0000_0000_0000_0000) by (nonlinear_arith)
                    requires
                        na <= 0x8000_0000_0000_0000,
                        SCALE == 65536,
                ;
            }
            let num: u128 = na * (SCALE as u128);
            let q: u128 = num / nb;
            proof {
                vstd::arithmetic::div_mod::lemma_div_nonincreasing(num as int, nb as int);
                vstd::arithmetic::div_mod::lemma_div_pos_is_pos(num as int, nb as int);
            }
            if (self.raw < 0) != (other.raw < 0) {
                clamp_raw(-(q as i128))
            } else {
                clamp_raw(q as i128)
            }
        }
    }

    /// Fixed-point square root: zero for non-positive input, otherwise the
    /// greatest representable scalar whose square does not exceed the input.
    pub fn sqrt(self) -> (r: Fx)
        ensures
            r.raw == fx_sqrt(self.raw as int),
    {
        if self.raw <= 0 {
            return Fx { raw: 0 };
        }
        let n: u128 = (self.raw as u128) * (SCALE as u128);
        let mut lo: u128 = 0;
        let mut hi: u128 = 0x1_0000_0000_0000;
        proof {
            assert(n < hi * hi) by (nonlinear_arith)
                requires
                    n < 0x1_0000_0000_0000_0000_0000,
                    hi == 0x1_0000_0000_0000,
            ;
        }
        while lo + 1 < hi
            invariant
                lo < hi <= 0x1_0000_0000_0000,
                lo * lo <= n,
                n < hi * hi,
            decreases hi - lo,
        {
            let mid = lo + (hi - lo) / 2;
            proof {
                assert(mid * mid < 0x1_0000_0000_0000_0000_0000_0000_0000_0000) by (
                nonlinear_arith)
                    requires
                        mid <= 0x1_0000_0000_0000,
                ;
            }
            if mid * mid <= n {
                lo = mid;
            } else {
                hi = mid;
            }
        }
        proof {
            lemma_isqrt_unique(n as int, lo as int);
            assert(lo < 0x1_0000_0000_0000);
        }
        Fx { raw: lo as i64 }
    }
}

/// Magnitude of a raw value, widened so that the smallest value negates safely.
fn abs_wide(x: i64) -> (r: u128)
    ensures
        r == fx_abs(x as int),
{
    if x < 0 {
        (-(x as i128)) as u128
    } else {
        x as u128
    }
}

/// Clamps a wide intermediate into the representable raw range.
fn clamp_raw(x: i128) -> (r: Fx)
    ensures
        r.raw == fx_sat(x as int),
{
    if x > (FX_MAX as i128) {
        Fx { raw: FX_MAX }
    } else if x < -(FX_MAX as i128) {
        Fx { raw: -FX_MAX }
    } else {
        Fx { raw: x as i64 }
    }
}

/// Floor division of a wide product by `SCALE`.
fn floor_div_scale(p: i128) -> (q: i128)
    requires
        -0x4000_0000_0000_0000_0000_0000_0000_0000 < p,
    ensures
        q == p as int / (SCALE as int),
{
    if p >= 0 {
        let m: u128 = p as u128;
        let d = m / (SCALE as u128);
        assert(d == p as int / (SCALE as int));
        d as i128
    } else {
        let m: u128 = (-p) as u128;
        let d: u128 = (m + (SCALE as u128) - 1) / (SCALE as u128);
        proof {
            lemma_neg_floor_div(-(p as int), SCALE as int);
        }
        -(d as i128)
    }
}

/// Multiplying by a factor in the unit range attenuates: the product of a
/// unit-range factor and a nonnegative value stays between zero and the
/// value.
pub proof fn lemma_fx_mul_attenuates(a: int, b: int)
    requires
        0 <= a <= SCALE,
        0 <= b <= FX_MAX,
    ensures
        0 <= fx_mul(a, b) <= b,
{
    assert(0 <= a * b <= SCALE * b) by (nonlinear_arith)
        requires
            0 <= a <= SCALE,
            0 <= b,
    ;
    vstd::arithmetic::div_mod::lemma_div_pos_is_pos(a * b, SCALE as int);
    vstd::arithmetic::div_mod::lemma_div_is_ordered(a * b, (SCALE as int) * b, SCALE as int);
    vstd::arithmetic::div_mod::lemma_div_multiples_vanish(b, SCALE as int);
}

/// Multiplying by one is exact.
pub proof fn lemma_fx_one_mul(b: int)
    requires
        -FX_MAX <= b <= FX_MAX,
    ensures
        fx_mul(SCALE as int, b) == b,
{
    vstd::arithmetic::div_mod::lemma_div_multiples_vanish(b, SCALE as int);
}

/// A quotient of nonnegative values with the dividend at most the divisor
/// lies in the unit range.
pub proof fn lemma_fx_div_unit(a: int, b: int)
    requires
        0 <= a <= b,
        0 < b,
    ensures
        0 <= fx_div(a, b) <= SCALE,
{
    assert(a * SCALE <= b * SCALE);
    vstd::arithmetic::div_mod::lemma_div_pos_is_pos(a * (SCALE as int), b);
    vstd::arithmetic::div_mod::lemma_div_is_ordered(a * (SCALE as int), b * (SCALE as int), b);
    vstd::arithmetic::div_mod::lemma_div_multiples_vanish(SCALE as int, b);
}

/// The product of two 64-bit raw values stays well inside the 128-bit range.
proof fn lemma_i64_product_bounded(a: int, b: int)
    requires
        -0x8000_0000_0000_0000 <= a <= 0x7fff_ffff_ffff_ffff,
        -0x8000_0000_0000_0000 <= b <= 0x7fff_ffff_ffff_ffff,
    ensures
        -0x4000_0000_0000_0000_0000_0000_0000_0000 < a * b,
        a * b < 0x4000_0000_0000_0000_0000_0000_0000_0001,
{
    assert(-0x4000_0000_0000_0000_0000_0000_0000_0000 < a * b
        < 0x4000_0000_0000_0000_0000_0000_0000_0001) by (nonlinear_arith)
        requires
            -0x8000_0000_0000_0000 <= a <= 0x7fff_ffff_ffff_ffff,
            -0x8000_0000_0000_0000 <= b <= 0x7fff_ffff_ffff_ffff,
    ;
}

/// `isqrt(n)` is the greatest integer whose square does not exceed `n`.
pub proof fn lemma_isqrt_bounds(n: int)
    requires
        n >= 0,
    ensures
        isqrt(n) >= 0,
        isqrt(n) * isqrt(n) <= n,
        n < (isqrt(n) + 1) * (isqrt(n) + 1),
    decreases n,
{
    if n > 0 {
        lemma_isqrt_bounds(n - 1);
        let r = isqrt(n - 1);
        if (r + 1) * (r + 1) <= n {
            assert(n == (r + 1) * (r + 1)) by (nonlinear_arith)
                requires
                    n - 1 < (r + 1) * (r + 1),
                    (r + 1) * (r + 1) <= n,
            ;
            assert((r + 1) * (r + 1) < (r + 2) * (r + 2)) by (nonlinear_arith)
                requires
                    r >= 0,
            ;
        }
    }
}

/// Any integer in the window `[s * s, (s + 1) * (s + 1))` has square root `s`.
pub proof fn lemma_isqrt_unique(n: int, s: int)
    requires
        n >= 0,
        s >= 0,
        s * s <= n,
        n < (s + 1) * (s + 1),
    ensures
        s == isqrt(n),
{
    lemma_isqrt_bounds(n);
    let r = isqrt(n);
    if s < r {
        assert((s + 1) * (s + 1) <= r * r) by (nonlinear_arith)
            requires
                0 <= s,
                s < r,
        ;
    }
    if r < s {
        assert((r + 1) * (r + 1) <= s * s) by (nonlinear_arith)
            requires
                0 <= r,
                r < s,
        ;
    }
}

/// For positive `m` and `d`, the floor of `-m / d` is the negated ceiling of
/// `m / d`.
proof fn lemma_neg_floor_div(m: int, d: int)
    requires
        m > 0,
        d > 0,
    ensures
        (-m) / d == -((m + d - 1) / d),
{
    let q = m / d;
    let r = m % d;
    vstd::arithmetic::div_mod::lemma_fundamental_div_mod(m, d);
    if r == 0 {
        assert(-m == (-q) * d + 0) by (nonlinear_arith)
            requires
                m == q * d + r,
                r == 0,
        ;
        assert(m + d - 1 == q * d + (d - 1)) by (nonlinear_arith)
            requires
                m == q * d + r,
                r == 0,
        ;
        vstd::arithmetic::div_mod::lemma_fundamental_div_mod_converse((-m), d, -q, 0);
        vstd::arithmetic::div_mod::lemma_fundamental_div_mod_converse(m + d - 1, d, q, d - 1);
    } else {
        assert(-m == (-q - 1) * d + (d - r)) by (nonlinear_arith)
            requires
                m == q * d + r,
        ;
        assert(m + d - 1 == (q + 1) * d + (r - 1)) by (nonlinear_arith)
            requires
                m == q * d + r,
        ;
        vstd::arithmetic::div_mod::lemma_fundamental_div_mod_converse((-m), d, -q - 1, d - r);
        vstd::arithmetic::div_mod::lemma_fundamental_div_mod_converse(m + d - 1, d, q + 1, r - 1);
    }
}

} // verus!
