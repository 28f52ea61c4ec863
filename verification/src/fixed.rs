//! Saturating Q16.16 fixed-point scalars.
//!
//! A real number `r` is represented by the `i64` value `r * 65536`, kept
//! within `[-FP_MAX, FP_MAX]`. Every operation computes the exact wide
//! result, truncates the fractional scaling toward zero, and saturates into
//! that range, so no operation can overflow or panic.

use vstd::prelude::*;

verus! {

/// Fixed-point scalar: the raw `i64` holds the real value times `FP_SCALE`.
pub type Fp = i64;

/// One whole unit (1.0) in fixed-point form.
pub const FP_SCALE: i64 = 65536;

/// Largest magnitude a fixed-point value may take (2^46).
pub const FP_MAX: i64 = 0x4000_0000_0000;

/// Whether a mathematical integer lies in the saturating range.
pub open spec fn fp_in_range(x: int) -> bool {
    -FP_MAX <= x <= FP_MAX
}

/// Magnitude of a mathematical integer.
pub open spec fn fp_abs(x: int) -> int {
    if x < 0 {
        -x
    } else {
        x
    }
}

/// Division truncating toward zero, as the executable code performs it.
pub open spec fn t_div(a: int, b: int) -> int {
    if (a < 0) == (b < 0) {
        fp_abs(a) / fp_abs(b)
    } else {
        -(fp_abs(a) / fp_abs(b))
    }
}

/// Saturation into the representable range.
pub open spec fn fp_clamp(x: int) -> int {
    if x < -FP_MAX {
        -(FP_MAX as int)
    } else if x > FP_MAX {
        FP_MAX as int
    } else {
        x
    }
}

/// The value of a fixed-point sum.
pub open spec fn fp_add_s(a: int, b: int) -> int {
    fp_clamp(a + b)
}

/// The value of a fixed-point difference.
pub open spec fn fp_sub_s(a: int, b: int) -> int {
    fp_clamp(a - b)
}

/// The value of a fixed-point product.
pub open spec fn fp_mul_s(a: int, b: int) -> int {
    fp_clamp(t_div(a * b, FP_SCALE as int))
}

/// The value of a fixed-point quotient.
pub open spec fn fp_div_s(a: int, b: int) -> int {
    fp_clamp(t_div(a * FP_SCALE, b))
}

/// The value of a fixed-point negation.
pub open spec fn fp_neg_s(a: int) -> int {
    fp_clamp(-a)
}

/// A product is bounded by the product of the factors' bounds.
pub(crate) proof fn lemma_mul_bound(a: int, b: int, m: int, n: int)
    requires
        -m <= a,
        a <= m,
        -n <= b,
        b <= n,
        0 <= m,
        0 <= n,
    ensures
        -(m * n) <= a * b,
        a * b <= m * n,
{
    assert(-(m * n) <= a * b && a * b <= m * n) by (nonlinear_arith)
        requires
            -m <= a,
            a <= m,
            -n <= b,
            b <= n,
            0 <= m,
            0 <= n,
    ;
}

/// Saturate a wide intermediate result into an `i64` in range.
fn clamp_i128(x: i128) -> (r: i64)
    ensures
        r as int == fp_clamp(x as int),
        fp_in_range(r as int),
{
    if x < -(FP_MAX as i128) {
        -FP_MAX
    } else if x > FP_MAX as i128 {
        FP_MAX
    } else {
        x as i64
    }
}

/// Division of wide intermediates, truncating toward zero.
pub(crate) fn div_trunc(a: i128, b: i128) -> (q: i128)
    requires
        b > 0,
        a > i128::MIN,
    ensures
        q as int == t_div(a as int, b as int),
{
    if a >= 0 {
        a / b
    } else {
        -((-a) / b)
    }
}

/// Saturating fixed-point addition.
pub fn fp_add(a: Fp, b: Fp) -> (r: Fp)
    ensures
        r as int == fp_add_s(a as int, b as int),
{
    clamp_i128(a as i128 + b as i128)
}

/// Saturating fixed-point subtraction.
pub fn fp_sub(a: Fp, b: Fp) -> (r: Fp)
    ensures
        r as int == fp_sub_s(a as int, b as int),
{
    clamp_i128(a as i128 - b as i128)
}

/// Saturating fixed-point multiplication.
pub fn fp_mul(a: Fp, b: Fp) -> (r: Fp)
    ensures
        r as int == fp_mul_s(a as int, b as int),
{
    proof {
        lemma_mul_bound(a as int, b as int, 0x8000_0000_0000_0000, 0x8000_0000_0000_0000);
    }
    let p: i128 = (a as i128) * (b as i128);
    clamp_i128(div_trunc(p, FP_SCALE as i128))
}

/// Saturating fixed-point division.
pub fn fp_div(a: Fp, b: Fp) -> (r: Fp)
    requires
        b != 0,
    ensures
        r as int == fp_div_s(a as int, b as int),
{
    proof {
        lemma_mul_bound(a as int, FP_SCALE as int, 0x8000_0000_0000_0000, 0x1_0000);
    }
    let num: i128 = (a as i128) * (FP_SCALE as i128);
    if b > 0 {
        clamp_i128(div_trunc(num, b as i128))
    } else {
        let q = div_trunc(-num, -(b as i128));
        assert(t_div(-(num as int), -(b as int)) == t_div(num as int, b as int));
        clamp_i128(q)
    }
}

/// Saturating fixed-point negation.
pub fn fp_neg(a: Fp) -> (r: Fp)
    ensures
        r as int == fp_neg_s(a as int),
{
    clamp_i128(-(a as i128))
}

/// Integer square root by halving the argument's bits.
pub open spec fn isqrt_s(n: nat) -> nat
    decreases n,
{
    if n == 0 {
        0
    } else {
        let r = 2 * isqrt_s(n / 4);
        if (r + 1) * (r + 1) <= n {
            r + 1
        } else {
            r
        }
    }
}

/// `isqrt_s` is the rounded-down square root.
pub proof fn lemma_isqrt(n: nat)
    ensures
        isqrt_s(n) * isqrt_s(n) <= n,
        n < (isqrt_s(n) + 1) * (isqrt_s(n) + 1),
    decreases n,
{
    if n == 0 {
        assert(isqrt_s(n) == 0);
        assert(n < (isqrt_s(n) + 1) * (isqrt_s(n) + 1)) by (nonlinear_arith)
            requires
                n == 0,
                isqrt_s(n) == 0,
        ;
    } else {
        let m = n / 4;
        lemma_isqrt(m);
        let s = isqrt_s(m);
        let r = 2 * s;
        assert(4 * m <= n < 4 * (m + 1));
        assert(r * r <= n && n < (r + 2) * (r + 2)) by (nonlinear_arith)
            requires
                s * s <= m,
                m < (s + 1) * (s + 1),
                4 * m <= n,
                n < 4 * (m + 1),
                r == 2 * s,
        ;
        if (r + 1) * (r + 1) <= n {
            assert(isqrt_s(n) == r + 1);
            assert(n < ((r + 1) + 1) * ((r + 1) + 1));
        } else {
            assert(isqrt_s(n) == r);
        }
    }
}

/// Executable integer square root of a wide value.
fn isqrt(n: u128) -> (r: u128)
    requires
        n < 0x1_0000_0000_0000_0000_0000_0000_0000,
    ensures
        r as nat == isqrt_s(n as nat),
        r * r <= n,
        n < (r + 1) * (r + 1),
    decreases n,
{
    proof {
        lemma_isqrt(n as nat);
    }
    if n == 0 {
        0
    } else {
        let s = isqrt(n / 4);
        proof {
            assert(s < 0x100_0000_0000_0000) by (nonlinear_arith)
                requires
                    (s as nat) * (s as nat) <= n as nat / 4,
                    (n as nat) < 0x1_0000_0000_0000_0000_0000_0000_0000,
            ;
        }
        let r = 2 * s;
        proof {
            lemma_mul_bound((r + 1) as int, (r + 1) as int, 0x200_0000_0000_0000,
                0x200_0000_0000_0000);
        }
        if (r + 1) * (r + 1) <= n {
            r + 1
        } else {
            r
        }
    }
}

/// The value of a fixed-point square root of a nonnegative value.
pub open spec fn fp_sqrt_s(x: int) -> int {
    isqrt_s((x * FP_SCALE) as nat) as int
}

/// Fixed-point square root; the result is exact to the representation:
/// it is the greatest value whose square (in exact integer arithmetic)
/// does not exceed the argument.
pub fn fp_sqrt(x: Fp) -> (r: Fp)
    requires
        0 <= x <= FP_MAX,
    ensures
        r as int == fp_sqrt_s(x as int),
        0 <= r,
        fp_in_range(r as int),
{
    let n: u128 = (x as u128) * (FP_SCALE as u128);
    proof {
        lemma_isqrt(n as nat);
        assert(isqrt_s(n as nat) <= FP_MAX) by (nonlinear_arith)
            requires
                isqrt_s(n as nat) * isqrt_s(n as nat) <= n as nat,
                (n as nat) <= (FP_MAX as nat) * (FP_SCALE as nat),
                FP_MAX == 0x4000_0000_0000,
                FP_SCALE == 0x1_0000,
        ;
    }
    let r = isqrt(n);
    r as i64
}

/// A rounded square is never negative and always representable.
pub proof fn lemma_fp_sq_nonneg(x: int)
    ensures
        0 <= fp_mul_s(x, x) <= FP_MAX,
{
    assert(x * x >= 0) by (nonlinear_arith);
}

/// Truncating division by a positive divisor is monotone in the dividend.
pub proof fn lemma_t_div_mono(x: int, y: int, b: int)
    requires
        x <= y,
        b > 0,
    ensures
        t_div(x, b) <= t_div(y, b),
{
    if x >= 0 {
        vstd::arithmetic::div_mod::lemma_div_is_ordered(x, y, b);
    } else if y >= 0 {
        vstd::arithmetic::div_mod::lemma_div_pos_is_pos(-x, b);
        vstd::arithmetic::div_mod::lemma_div_pos_is_pos(y, b);
    } else {
        vstd::arithmetic::div_mod::lemma_div_is_ordered(-y, -x, b);
    }
}

/// Truncating division of a nonnegative value by a positive one is
/// nonnegative.
pub proof fn lemma_t_div_nonneg(a: int, b: int)
    requires
        a >= 0,
        b > 0,
    ensures
        t_div(a, b) >= 0,
{
    vstd::arithmetic::div_mod::lemma_div_pos_is_pos(a, b);
}

/// Truncating division by at least one never grows the magnitude.
pub proof fn lemma_t_div_shrinks(a: int, b: int)
    requires
        b >= 1,
    ensures
        fp_abs(t_div(a, b)) <= fp_abs(a),
{
    vstd::arithmetic::div_mod::lemma_div_is_ordered_by_denominator(fp_abs(a), 1, b);
    vstd::arithmetic::div_mod::lemma_div_basics(fp_abs(a));
    vstd::arithmetic::div_mod::lemma_div_pos_is_pos(fp_abs(a), b);
}

/// The rounded square of a value no longer than one is nonnegative and no
/// longer than one.
pub proof fn lemma_fp_unit_sq(z: int)
    requires
        -FP_SCALE <= z <= FP_SCALE,
    ensures
        0 <= fp_mul_s(z, z) <= FP_SCALE,
{
    assert(0 <= z * z <= FP_SCALE * FP_SCALE) by (nonlinear_arith)
        requires
            -FP_SCALE <= z <= FP_SCALE,
    ;
    vstd::arithmetic::div_mod::lemma_div_is_ordered(z * z, FP_SCALE * FP_SCALE,
        FP_SCALE as int);
}

/// The rounded-down square root of a positive value is positive.
pub proof fn lemma_isqrt_pos(n: nat)
    requires
        n >= 1,
    ensures
        isqrt_s(n) >= 1,
{
    lemma_isqrt(n);
    if isqrt_s(n) == 0 {
        assert((isqrt_s(n) + 1) * (isqrt_s(n) + 1) == 1) by (nonlinear_arith)
            requires
                isqrt_s(n) == 0,
        ;
    }
}

/// Integer cube root by halving the argument's bits.
pub open spec fn icbrt_s(n: nat) -> nat
    decreases n,
{
    if n == 0 {
        0
    } else {
        let r = 2 * icbrt_s(n / 8);
        if (r + 1) * (r + 1) * (r + 1) <= n {
            r + 1
        } else {
            r
        }
    }
}

/// `icbrt_s` is the rounded-down cube root.
pub proof fn lemma_icbrt(n: nat)
    ensures
        icbrt_s(n) * icbrt_s(n) * icbrt_s(n) <= n,
        n < (icbrt_s(n) + 1) * (icbrt_s(n) + 1) * (icbrt_s(n) + 1),
    decreases n,
{
    if n == 0 {
        assert(icbrt_s(n) == 0);
        assert(n < (icbrt_s(n) + 1) * (icbrt_s(n) + 1) * (icbrt_s(n) + 1)) by (nonlinear_arith)
            requires
                n == 0,
                icbrt_s(n) == 0,
        ;
    } else {
        let m = n / 8;
        lemma_icbrt(m);
        let s = icbrt_s(m);
        let r = 2 * s;
        assert(8 * m <= n < 8 * (m + 1));
        assert(r * r * r <= n && n < (r + 2) * (r + 2) * (r + 2)) by (nonlinear_arith)
            requires
                s * s * s <= m,
                m < (s + 1) * (s + 1) * (s + 1),
                8 * m <= n,
                n < 8 * (m + 1),
                r == 2 * s,
        ;
        if (r + 1) * (r + 1) * (r + 1) <= n {
            assert(icbrt_s(n) == r + 1);
            assert(n < ((r + 1) + 1) * ((r + 1) + 1) * ((r + 1) + 1));
        } else {
            assert(icbrt_s(n) == r);
        }
    }
}

/// Executable integer cube root of a wide value.
fn icbrt(n: u128) -> (r: u128)
    requires
        n < 0x1_0000_0000_0000_0000_0000_0000,
    ensures
        r as nat == icbrt_s(n as nat),
        r * r * r <= n,
        n < (r + 1) * (r + 1) * (r + 1),
    decreases n,
{
    proof {
        lemma_icbrt(n as nat);
    }
    if n == 0 {
        0
    } else {
        let s = icbrt(n / 8);
        proof {
            assert(s < 0x1_0000_0000) by (nonlinear_arith)
                requires
                    (s as nat) * (s as nat) * (s as nat) <= n as nat / 8,
                    (n as nat) < 0x1_0000_0000_0000_0000_0000_0000,
            ;
        }
        let r = 2 * s;
        proof {
            lemma_mul_bound((r + 1) as int, (r + 1) as int, 0x2_0000_0000, 0x2_0000_0000);
            lemma_mul_bound((r + 1) as int * ((r + 1) as int), (r + 1) as int,
                0x4_0000_0000_0000_0000, 0x2_0000_0000);
        }
        if (r + 1) * (r + 1) * (r + 1) <= n {
            r + 1
        } else {
            r
        }
    }
}

/// The value of a fixed-point cube root of a nonnegative value.
pub open spec fn fp_cbrt_s(x: int) -> int {
    icbrt_s((x * FP_SCALE * FP_SCALE) as nat) as int
}

/// Fixed-point cube root: the greatest value whose cube (in exact integer
/// arithmetic) does not exceed the argument.
pub fn fp_cbrt(x: Fp) -> (r: Fp)
    requires
        0 <= x <= FP_SCALE,
    ensures
        r as int == fp_cbrt_s(x as int),
        0 <= r <= FP_SCALE,
{
    let n: u128 = (x as u128) * (FP_SCALE as u128) * (FP_SCALE as u128);
    proof {
        lemma_icbrt(n as nat);
        assert(icbrt_s(n as nat) <= FP_SCALE) by (nonlinear_arith)
            requires
                icbrt_s(n as nat) * icbrt_s(n as nat) * icbrt_s(n as nat) <= n as nat,
                (n as nat) <= (FP_SCALE as nat) * (FP_SCALE as nat) * (FP_SCALE as nat),
                FP_SCALE == 0x1_0000,
        ;
    }
    let r = icbrt(n);
    r as i64
}

} // verus!
