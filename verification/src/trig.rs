//! Fixed-point circular functions.
//!
//! Sine uses Bhaskara's rational approximation on [0, pi] after reducing the
//! angle modulo 2 pi; cosine and tangent derive from it. Degenerate
//! denominators are resolved by explicit guard branches, never by faulting,
//! and the specifications mirror the guards exactly.

use vstd::prelude::*;

use crate::fixed::Fp;
use crate::fixed::div_trunc;
use crate::fixed::fp_add;
use crate::fixed::fp_add_s;
use crate::fixed::fp_div;
use crate::fixed::fp_div_s;
use crate::fixed::fp_mul;
use crate::fixed::fp_mul_s;
use crate::fixed::fp_neg;
use crate::fixed::fp_neg_s;
use crate::fixed::fp_sub;
use crate::fixed::fp_sub_s;
use crate::fixed::t_div;

verus! {

/// Pi in Q16.16.
pub const PI_FP: i64 = 205887;

/// Two pi in Q16.16.
pub const TWO_PI_FP: i64 = 411775;

/// Half pi in Q16.16.
pub const HALF_PI_FP: i64 = 102944;

/// Five pi squared in Q16.16, the constant of Bhaskara's denominator.
pub const FIVE_PI_SQ_FP: i64 = 3234341;

/// An angle reduced into [0, two pi).
pub open spec fn angle_mod_s(x: int) -> int {
    let m = x - TWO_PI_FP * t_div(x, TWO_PI_FP as int);
    if m < 0 {
        m + TWO_PI_FP
    } else {
        m
    }
}

/// Bhaskara's sine approximation, meaningful on [0, pi].
pub open spec fn bhaskara_s(z: int) -> int {
    let w = fp_mul_s(z, fp_sub_s(PI_FP as int, z));
    let den = FIVE_PI_SQ_FP - 4 * w;
    if den <= 0 {
        0
    } else {
        fp_div_s(16 * w, den)
    }
}

/// The fixed-point sine of an angle in radians.
pub open spec fn sin_s(x: int) -> int {
    let y = angle_mod_s(x);
    if y < PI_FP {
        bhaskara_s(y)
    } else {
        fp_neg_s(bhaskara_s(y - PI_FP))
    }
}

/// The fixed-point cosine of an angle in radians.
pub open spec fn cos_s(x: int) -> int {
    sin_s(fp_add_s(x, HALF_PI_FP as int))
}

/// The fixed-point tangent of an angle in radians, zero where the cosine
/// rounds to zero.
pub open spec fn tan_s(x: int) -> int {
    let c = cos_s(x);
    if c == 0 {
        0
    } else {
        fp_div_s(sin_s(x), c)
    }
}

/// Reduce an angle into [0, two pi).
fn angle_mod(x: Fp) -> (r: Fp)
    ensures
        r as int == angle_mod_s(x as int),
        0 <= r < TWO_PI_FP,
{
    let q: i128 = div_trunc(x as i128, TWO_PI_FP as i128);
    let m: i128 = (x as i128) - (TWO_PI_FP as i128) * q;
    proof {
        let xi = x as int;
        let d = TWO_PI_FP as int;
        if xi >= 0 {
            assert(d * (xi / d) <= xi && xi - d * (xi / d) < d) by (nonlinear_arith)
                requires
                    xi >= 0,
                    d == 411775,
            ;
        } else {
            assert(d * ((-xi) / d) <= -xi && -xi - d * ((-xi) / d) < d) by (nonlinear_arith)
                requires
                    xi < 0,
                    d == 411775,
            ;
        }
    }
    if m < 0 {
        (m + TWO_PI_FP as i128) as i64
    } else {
        m as i64
    }
}

/// Bhaskara's rational sine approximation on [0, pi].
fn bhaskara(z: Fp) -> (r: Fp)
    ensures
        r as int == bhaskara_s(z as int),
{
    let w = fp_mul(z, fp_sub(PI_FP, z));
    let den = FIVE_PI_SQ_FP - 4 * w;
    if den <= 0 {
        0
    } else {
        fp_div(16 * w, den)
    }
}

/// Fixed-point sine.
pub fn sin_fp(x: Fp) -> (r: Fp)
    ensures
        r as int == sin_s(x as int),
{
    let y = angle_mod(x);
    if y < PI_FP {
        bhaskara(y)
    } else {
        fp_neg(bhaskara(y - PI_FP))
    }
}

/// Fixed-point cosine.
pub fn cos_fp(x: Fp) -> (r: Fp)
    ensures
        r as int == cos_s(x as int),
{
    sin_fp(fp_add(x, HALF_PI_FP))
}

/// Fixed-point tangent, zero where the cosine rounds to zero.
pub fn tan_fp(x: Fp) -> (r: Fp)
    ensures
        r as int == tan_s(x as int),
{
    let c = cos_fp(x);
    if c == 0 {
        0
    } else {
        fp_div(sin_fp(x), c)
    }
}

} // verus!
