//! Three-component fixed-point vectors, used for points, directions, and
//! linear RGB colors alike.

use vstd::prelude::*;

use crate::fixed::FP_MAX;
use crate::fixed::FP_SCALE;
use crate::fixed::Fp;
use crate::fixed::fp_add;
use crate::fixed::fp_add_s;
use crate::fixed::fp_div;
use crate::fixed::fp_div_s;
use crate::fixed::fp_in_range;
use crate::fixed::fp_mul;
use crate::fixed::fp_mul_s;
use crate::fixed::fp_neg;
use crate::fixed::fp_neg_s;
use crate::fixed::fp_sqrt;
use crate::fixed::fp_sqrt_s;
use crate::fixed::fp_sub;
use crate::fixed::fp_sub_s;
use crate::fixed::fp_cbrt;
use crate::fixed::fp_cbrt_s;
use crate::fixed::lemma_fp_unit_sq;
use crate::fixed::lemma_isqrt;
use crate::rng::Rng;
use crate::rng::rng_step_s;
use crate::rng::rng_unit_s;
use crate::trig::TWO_PI_FP;
use crate::trig::cos_fp;
use crate::trig::cos_s;
use crate::trig::sin_fp;
use crate::trig::sin_s;

verus! {

/// A vector, point, or linear color with Q16.16 components.
#[derive(Clone, Copy, Debug, PartialEq, Eq, Structural)]
pub struct Vec3 {
    pub x: Fp,
    pub y: Fp,
    pub z: Fp,
}

/// All three components lie in the saturating range.
pub open spec fn v_in_range(v: Vec3) -> bool {
    fp_in_range(v.x as int) && fp_in_range(v.y as int) && fp_in_range(v.z as int)
}

/// Componentwise sum.
pub open spec fn v_add_s(a: Vec3, b: Vec3) -> Vec3 {
    Vec3 {
        x: fp_add_s(a.x as int, b.x as int) as i64,
        y: fp_add_s(a.y as int, b.y as int) as i64,
        z: fp_add_s(a.z as int, b.z as int) as i64,
    }
}

/// Componentwise difference.
pub open spec fn v_sub_s(a: Vec3, b: Vec3) -> Vec3 {
    Vec3 {
        x: fp_sub_s(a.x as int, b.x as int) as i64,
        y: fp_sub_s(a.y as int, b.y as int) as i64,
        z: fp_sub_s(a.z as int, b.z as int) as i64,
    }
}

/// Componentwise product, the color-attenuation operation.
pub open spec fn v_mul_s(a: Vec3, b: Vec3) -> Vec3 {
    Vec3 {
        x: fp_mul_s(a.x as int, b.x as int) as i64,
        y: fp_mul_s(a.y as int, b.y as int) as i64,
        z: fp_mul_s(a.z as int, b.z as int) as i64,
    }
}

/// Scaling by a fixed-point scalar.
pub open spec fn v_scale_s(a: Vec3, k: int) -> Vec3 {
    Vec3 {
        x: fp_mul_s(a.x as int, k) as i64,
        y: fp_mul_s(a.y as int, k) as i64,
        z: fp_mul_s(a.z as int, k) as i64,
    }
}

/// Division of every component by a fixed-point scalar.
pub open spec fn v_div_s(a: Vec3, k: int) -> Vec3 {
    Vec3 {
        x: fp_div_s(a.x as int, k) as i64,
        y: fp_div_s(a.y as int, k) as i64,
        z: fp_div_s(a.z as int, k) as i64,
    }
}

/// Componentwise division.
pub open spec fn v_div_elem_s(a: Vec3, b: Vec3) -> Vec3 {
    Vec3 {
        x: fp_div_s(a.x as int, b.x as int) as i64,
        y: fp_div_s(a.y as int, b.y as int) as i64,
        z: fp_div_s(a.z as int, b.z as int) as i64,
    }
}

/// Negation.
pub open spec fn v_neg_s(a: Vec3) -> Vec3 {
    Vec3 {
        x: fp_neg_s(a.x as int) as i64,
        y: fp_neg_s(a.y as int) as i64,
        z: fp_neg_s(a.z as int) as i64,
    }
}

/// Dot product under fixed-point rounding.
pub open spec fn v_dot_s(a: Vec3, b: Vec3) -> int {
    fp_add_s(
        fp_add_s(fp_mul_s(a.x as int, b.x as int), fp_mul_s(a.y as int, b.y as int)),
        fp_mul_s(a.z as int, b.z as int),
    )
}

/// Cross product under fixed-point rounding.
pub open spec fn v_cross_s(a: Vec3, b: Vec3) -> Vec3 {
    Vec3 {
        x: fp_sub_s(fp_mul_s(a.y as int, b.z as int), fp_mul_s(a.z as int, b.y as int)) as i64,
        y: fp_sub_s(fp_mul_s(a.z as int, b.x as int), fp_mul_s(a.x as int, b.z as int)) as i64,
        z: fp_sub_s(fp_mul_s(a.x as int, b.y as int), fp_mul_s(a.y as int, b.x as int)) as i64,
    }
}

/// Squared Euclidean length under fixed-point rounding.
pub open spec fn v_len_sq_s(a: Vec3) -> int {
    v_dot_s(a, a)
}

/// Euclidean length under fixed-point rounding.
pub open spec fn v_len_s(a: Vec3) -> int {
    fp_sqrt_s(v_len_sq_s(a))
}

/// A squared length is never negative.
pub proof fn lemma_len_sq_nonneg(a: Vec3)
    ensures
        0 <= v_len_sq_s(a) <= FP_MAX,
{
    crate::fixed::lemma_fp_sq_nonneg(a.x as int);
    crate::fixed::lemma_fp_sq_nonneg(a.y as int);
    crate::fixed::lemma_fp_sq_nonneg(a.z as int);
}

impl Vec3 {
    /// The zero vector.
    pub fn new() -> (r: Vec3)
        ensures
            r == (Vec3 { x: 0i64, y: 0i64, z: 0i64 }),
    {
        Vec3 { x: 0, y: 0, z: 0 }
    }

    /// All three components set to the same value.
    pub fn splat(value: Fp) -> (r: Vec3)
        ensures
            r == (Vec3 { x: value, y: value, z: value }),
    {
        Vec3 { x: value, y: value, z: value }
    }

    /// First component as a coordinate.
    pub fn x(&self) -> (r: Fp)
        ensures
            r == self.x,
    {
        self.x
    }

    /// Second component as a coordinate.
    pub fn y(&self) -> (r: Fp)
        ensures
            r == self.y,
    {
        self.y
    }

    /// Third component as a coordinate.
    pub fn z(&self) -> (r: Fp)
        ensures
            r == self.z,
    {
        self.z
    }

    /// First component as a color channel.
    pub fn r(&self) -> (r: Fp)
        ensures
            r == self.x,
    {
        self.x
    }

    /// Second component as a color channel.
    pub fn g(&self) -> (r: Fp)
        ensures
            r == self.y,
    {
        self.y
    }

    /// Third component as a color channel.
    pub fn b(&self) -> (r: Fp)
        ensures
            r == self.z,
    {
        self.z
    }

    /// Componentwise sum.
    pub fn add(&self, o: &Vec3) -> (r: Vec3)
        ensures
            r == v_add_s(*self, *o),
            v_in_range(r),
    {
        Vec3 { x: fp_add(self.x, o.x), y: fp_add(self.y, o.y), z: fp_add(self.z, o.z) }
    }

    /// Componentwise difference.
    pub fn sub(&self, o: &Vec3) -> (r: Vec3)
        ensures
            r == v_sub_s(*self, *o),
            v_in_range(r),
    {
        Vec3 { x: fp_sub(self.x, o.x), y: fp_sub(self.y, o.y), z: fp_sub(self.z, o.z) }
    }

    /// Componentwise product.
    pub fn mul(&self, o: &Vec3) -> (r: Vec3)
        ensures
            r == v_mul_s(*self, *o),
            v_in_range(r),
    {
        Vec3 { x: fp_mul(self.x, o.x), y: fp_mul(self.y, o.y), z: fp_mul(self.z, o.z) }
    }

    /// Scaling by a scalar.
    pub fn scale(&self, k: Fp) -> (r: Vec3)
        ensures
            r == v_scale_s(*self, k as int),
            v_in_range(r),
    {
        Vec3 { x: fp_mul(self.x, k), y: fp_mul(self.y, k), z: fp_mul(self.z, k) }
    }

    /// Division of every component by a scalar.
    pub fn div(&self, k: Fp) -> (r: Vec3)
        requires
            k != 0,
        ensures
            r == v_div_s(*self, k as int),
            v_in_range(r),
    {
        Vec3 { x: fp_div(self.x, k), y: fp_div(self.y, k), z: fp_div(self.z, k) }
    }

    /// Componentwise division.
    pub fn div_elem(&self, o: &Vec3) -> (r: Vec3)
        requires
            o.x != 0,
            o.y != 0,
            o.z != 0,
        ensures
            r == v_div_elem_s(*self, *o),
            v_in_range(r),
    {
        Vec3 { x: fp_div(self.x, o.x), y: fp_div(self.y, o.y), z: fp_div(self.z, o.z) }
    }

    /// Negation.
    pub fn neg(&self) -> (r: Vec3)
        ensures
            r == v_neg_s(*self),
            v_in_range(r),
    {
        Vec3 { x: fp_neg(self.x), y: fp_neg(self.y), z: fp_neg(self.z) }
    }

    /// Dot product.
    pub fn dot(a: &Vec3, b: &Vec3) -> (r: Fp)
        ensures
            r as int == v_dot_s(*a, *b),
            fp_in_range(r as int),
    {
        fp_add(fp_add(fp_mul(a.x, b.x), fp_mul(a.y, b.y)), fp_mul(a.z, b.z))
    }

    /// Cross product.
    pub fn cross(a: &Vec3, b: &Vec3) -> (r: Vec3)
        ensures
            r == v_cross_s(*a, *b),
            v_in_range(r),
    {
        Vec3 {
            x: fp_sub(fp_mul(a.y, b.z), fp_mul(a.z, b.y)),
            y: fp_sub(fp_mul(a.z, b.x), fp_mul(a.x, b.z)),
            z: fp_sub(fp_mul(a.x, b.y), fp_mul(a.y, b.x)),
        }
    }

    /// Squared Euclidean length.
    pub fn length_squared(&self) -> (r: Fp)
        ensures
            r as int == v_len_sq_s(*self),
            0 <= r <= FP_MAX,
    {
        proof {
            lemma_len_sq_nonneg(*self);
        }
        Vec3::dot(self, self)
    }

    /// Euclidean length.
    pub fn length(&self) -> (r: Fp)
        ensures
            r as int == v_len_s(*self),
            0 <= r,
            fp_in_range(r as int),
    {
        proof {
            lemma_len_sq_nonneg(*self);
        }
        fp_sqrt(self.length_squared())
    }

    /// The unit vector with this vector's direction. Callers must rule out
    /// a length that rounds to zero; directions are never that short.
    pub fn normalize(self) -> (r: Vec3)
        requires
            v_len_sq_s(self) >= 1,
        ensures
            r == v_div_s(self, v_len_s(self)),
            v_in_range(r),
    {
        proof {
            lemma_len_sq_nonneg(self);
            lemma_isqrt((v_len_sq_s(self) * FP_SCALE) as nat);
        }
        let len = self.length();
        assert(v_len_s(self) >= 1) by {
            crate::fixed::lemma_isqrt_pos((v_len_sq_s(self) * FP_SCALE) as nat);
        }
        self.div(len)
    }

    /// Affine remap of components from [-1, 1] to [0, 1].
    pub fn map_to_color_range(&self) -> (r: Vec3)
        ensures
            r == v_scale_s(v_add_s((Vec3 { x: FP_SCALE, y: FP_SCALE, z: FP_SCALE }), *self), FP_SCALE as int / 2),
    {
        let one = Vec3 { x: FP_SCALE, y: FP_SCALE, z: FP_SCALE };
        one.add(self).scale(FP_SCALE / 2)
    }

    /// The components as an array, for handing whole vectors outward.
    pub fn to_array(&self) -> (r: [Fp; 3])
        ensures
            r[0] == self.x,
            r[1] == self.y,
            r[2] == self.z,
    {
        [self.x, self.y, self.z]
    }

    /// Whether the vector is too short to carry a direction: in this
    /// representation, whether every component rounds to zero.
    pub fn near_zero(&self) -> (r: bool)
        ensures
            r == (self.x == 0 && self.y == 0 && self.z == 0),
    {
        self.x == 0 && self.y == 0 && self.z == 0
    }

    /// A vector with each component drawn independently from [min, max).
    pub fn random_with_range(min: Fp, max: Fp, rng: &mut Rng) -> (r: Vec3)
        ensures
            final(rng).state == rng_step_s(rng_step_s(rng_step_s(old(rng).state))),
            r == range_sample_s(min as int, max as int, old(rng).state),
            v_in_range(r),
    {
        let ux = rng.next_unit();
        let uy = rng.next_unit();
        let uz = rng.next_unit();
        Vec3 {
            x: fp_add(min, fp_mul(ux, fp_sub(max, min))),
            y: fp_add(min, fp_mul(uy, fp_sub(max, min))),
            z: fp_add(min, fp_mul(uz, fp_sub(max, min))),
        }
    }

    /// A point inside the unit ball, by the rejection-free polar method:
    /// a longitude, a latitude height, and a cube-rooted radius.
    pub fn random_point_in_unit_sphere(rng: &mut Rng) -> (r: Vec3)
        ensures
            final(rng).state == rng_step_s(rng_step_s(rng_step_s(old(rng).state))),
            r == ball_sample_s(old(rng).state),
            v_in_range(r),
    {
        let u = rng.next_unit();
        let v = rng.next_unit();
        let w = rng.next_unit();
        let theta = fp_mul(TWO_PI_FP, u);
        let zc = fp_sub(fp_mul(2 * FP_SCALE, v), FP_SCALE);
        let rad = fp_cbrt(w);
        proof {
            lemma_fp_unit_sq(zc as int);
        }
        let s_lat = fp_sqrt(fp_sub(FP_SCALE, fp_mul(zc, zc)));
        Vec3 {
            x: fp_mul(rad, fp_mul(s_lat, cos_fp(theta))),
            y: fp_mul(rad, fp_mul(s_lat, sin_fp(theta))),
            z: fp_mul(rad, zc),
        }
    }

    /// A direction on the unit sphere: a ball point, normalized; the zero
    /// sample falls back to the upward axis.
    pub fn random_unit_vector(rng: &mut Rng) -> (r: Vec3)
        ensures
            final(rng).state == rng_step_s(rng_step_s(rng_step_s(old(rng).state))),
            r == unit_sample_s(old(rng).state),
            v_in_range(r),
    {
        let p = Vec3::random_point_in_unit_sphere(rng);
        proof {
            lemma_len_sq_nonneg(p);
        }
        if p.length_squared() == 0 {
            Vec3 { x: 0, y: 0, z: FP_SCALE }
        } else {
            p.normalize()
        }
    }

    /// A point in the unit disk of the xy plane, by the same polar method.
    pub fn random_point_in_unit_disk(rng: &mut Rng) -> (r: Vec3)
        ensures
            final(rng).state == rng_step_s(rng_step_s(old(rng).state)),
            r == disk_sample_s(old(rng).state),
            v_in_range(r),
    {
        let u = rng.next_unit();
        let v = rng.next_unit();
        let theta = fp_mul(TWO_PI_FP, u);
        let rad = fp_sqrt(v);
        Vec3 { x: fp_mul(rad, cos_fp(theta)), y: fp_mul(rad, sin_fp(theta)), z: 0 }
    }
}

/// One component of `random_with_range`: `min + u * (max - min)`.
pub open spec fn range_component_s(min: int, max: int, u: int) -> int {
    fp_add_s(min, fp_mul_s(u, fp_sub_s(max, min)))
}

/// The vector `random_with_range` draws from a starting generator state.
pub open spec fn range_sample_s(min: int, max: int, s0: u64) -> Vec3 {
    let s1 = rng_step_s(s0);
    let s2 = rng_step_s(s1);
    let s3 = rng_step_s(s2);
    Vec3 {
        x: range_component_s(min, max, rng_unit_s(s1)) as i64,
        y: range_component_s(min, max, rng_unit_s(s2)) as i64,
        z: range_component_s(min, max, rng_unit_s(s3)) as i64,
    }
}

/// The ball point built from three unit samples.
pub open spec fn ball_point_s(u: int, v: int, w: int) -> Vec3 {
    let theta = fp_mul_s(TWO_PI_FP as int, u);
    let zc = fp_sub_s(fp_mul_s(2 * FP_SCALE, v), FP_SCALE as int);
    let rad = fp_cbrt_s(w);
    let s_lat = fp_sqrt_s(fp_sub_s(FP_SCALE as int, fp_mul_s(zc, zc)));
    Vec3 {
        x: fp_mul_s(rad, fp_mul_s(s_lat, cos_s(theta))) as i64,
        y: fp_mul_s(rad, fp_mul_s(s_lat, sin_s(theta))) as i64,
        z: fp_mul_s(rad, zc) as i64,
    }
}

/// The ball point `random_point_in_unit_sphere` draws from a starting
/// generator state.
pub open spec fn ball_sample_s(s0: u64) -> Vec3 {
    let s1 = rng_step_s(s0);
    let s2 = rng_step_s(s1);
    let s3 = rng_step_s(s2);
    ball_point_s(rng_unit_s(s1), rng_unit_s(s2), rng_unit_s(s3))
}

/// The unit direction `random_unit_vector` draws from a starting generator
/// state.
pub open spec fn unit_sample_s(s0: u64) -> Vec3 {
    let p = ball_sample_s(s0);
    if v_len_sq_s(p) == 0 {
        Vec3 { x: 0, y: 0, z: FP_SCALE }
    } else {
        v_div_s(p, v_len_s(p))
    }
}

/// The disk point `random_point_in_unit_disk` draws from a starting
/// generator state.
pub open spec fn disk_sample_s(s0: u64) -> Vec3 {
    let s1 = rng_step_s(s0);
    let s2 = rng_step_s(s1);
    let theta = fp_mul_s(TWO_PI_FP as int, rng_unit_s(s1));
    let rad = fp_sqrt_s(rng_unit_s(s2));
    Vec3 {
        x: fp_mul_s(rad, cos_s(theta)) as i64,
        y: fp_mul_s(rad, sin_s(theta)) as i64,
        z: 0,
    }
}

} // verus!
