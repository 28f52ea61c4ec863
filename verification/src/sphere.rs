//! Spheres and the analytic ray/sphere intersection test.

use vstd::prelude::*;

use crate::fixed::Fp;
use crate::fixed::fp_add;
use crate::fixed::fp_add_s;
use crate::fixed::fp_div;
use crate::fixed::fp_div_s;
use crate::fixed::fp_mul;
use crate::fixed::fp_mul_s;
use crate::fixed::fp_neg;
use crate::fixed::fp_neg_s;
use crate::fixed::fp_sqrt;
use crate::fixed::fp_sqrt_s;
use crate::fixed::fp_sub;
use crate::fixed::fp_sub_s;
use crate::hit::HitResult;
use crate::hit::HitResultData;
use crate::hit::facing_normal_s;
use crate::hit::front_face_s;
use crate::hit::lemma_normal_faces_incoming;
use crate::material::Material;
use crate::material::material_inv;
use crate::ray::Ray;
use crate::ray::ray_at_s;
use crate::vec3::Vec3;
use crate::vec3::v_div_s;
use crate::vec3::v_dot_s;
use crate::vec3::v_in_range;
use crate::vec3::v_len_sq_s;
use crate::vec3::v_sub_s;

verus! {

/// A sphere with a material and a stable identity for host-side selection.
#[derive(Clone, Copy, Debug, PartialEq, Eq, Structural)]
pub struct Sphere {
    pub center: Vec3,
    pub radius: Fp,
    pub material: Material,
    pub uuid: i32,
}

/// A sphere's fields are meaningful: positive radius, components in range,
/// a meaningful material.
pub open spec fn sphere_inv(s: Sphere) -> bool {
    &&& s.radius > 0
    &&& v_in_range(s.center)
    &&& material_inv(s.material)
}

/// The squared length of the ray direction: the quadratic's leading
/// coefficient.
pub open spec fn sphere_a_s(r: Ray) -> int {
    v_len_sq_s(r.direction)
}

/// Half the quadratic's middle coefficient.
pub open spec fn sphere_half_b_s(s: Sphere, r: Ray) -> int {
    v_dot_s(v_sub_s(r.origin, s.center), r.direction)
}

/// The quadratic's constant coefficient.
pub open spec fn sphere_c_s(s: Sphere, r: Ray) -> int {
    fp_sub_s(
        v_len_sq_s(v_sub_s(r.origin, s.center)),
        fp_mul_s(s.radius as int, s.radius as int),
    )
}

/// The discriminant of the intersection quadratic, with the half-b
/// optimization: `half_b^2 - a c`.
pub open spec fn sphere_disc_s(s: Sphere, r: Ray) -> int {
    fp_sub_s(
        fp_mul_s(sphere_half_b_s(s, r), sphere_half_b_s(s, r)),
        fp_mul_s(sphere_a_s(r), sphere_c_s(s, r)),
    )
}

/// The nearer root of the quadratic.
pub open spec fn sphere_root1_s(s: Sphere, r: Ray) -> int {
    fp_div_s(
        fp_sub_s(fp_neg_s(sphere_half_b_s(s, r)), fp_sqrt_s(sphere_disc_s(s, r))),
        sphere_a_s(r),
    )
}

/// The farther root of the quadratic.
pub open spec fn sphere_root2_s(s: Sphere, r: Ray) -> int {
    fp_div_s(
        fp_add_s(fp_neg_s(sphere_half_b_s(s, r)), fp_sqrt_s(sphere_disc_s(s, r))),
        sphere_a_s(r),
    )
}

/// The ray parameter at which a sphere is hit within [t_min, t_max]: the
/// nearer root when it is in range, else the farther root when it is in
/// range, else nothing. A negative discriminant, or a direction whose
/// squared length rounds to zero, is never a hit.
pub open spec fn sphere_hit_t_s(s: Sphere, r: Ray, t_min: int, t_max: int) -> Option<int> {
    if sphere_disc_s(s, r) < 0 || sphere_a_s(r) == 0 {
        None
    } else {
        let root1 = sphere_root1_s(s, r);
        let root2 = sphere_root2_s(s, r);
        if t_min <= root1 <= t_max {
            Some(root1)
        } else if t_min <= root2 <= t_max {
            Some(root2)
        } else {
            None
        }
    }
}

/// The record a sphere reports for a hit at parameter `t`.
pub open spec fn sphere_hit_data_s(s: Sphere, r: Ray, t: int) -> HitResultData {
    let p = ray_at_s(r, t);
    let outward = v_div_s(v_sub_s(p, s.center), s.radius as int);
    HitResultData {
        hit_point: p,
        normal: facing_normal_s(r.direction, outward),
        t: t as i64,
        front_face: front_face_s(r.direction, outward),
        uuid: s.uuid,
    }
}

/// The full outcome of testing a ray against a sphere.
pub open spec fn sphere_hit_s(s: Sphere, r: Ray, t_min: int, t_max: int) -> HitResult {
    match sphere_hit_t_s(s, r, t_min, t_max) {
        Option::None => HitResult::NoHit,
        Option::Some(t) => HitResult::Hit { data: sphere_hit_data_s(s, r, t) },
    }
}

impl Sphere {
    /// Test a ray against this sphere within [t_min, t_max]. A negative
    /// discriminant reports no hit; otherwise the nearer root is tried
    /// first and the farther root second, since a sphere's near side may
    /// lie outside the range while its far side lies inside.
    pub fn hit(&self, ray: &Ray, t_min: Fp, t_max: Fp) -> (res: HitResult)
        requires
            self.radius > 0,
        ensures
            res == sphere_hit_s(*self, *ray, t_min as int, t_max as int),
            sphere_disc_s(*self, *ray) < 0 ==> res is NoHit,
            res matches HitResult::Hit { data } ==> v_dot_s(ray.direction, data.normal) <= 0,
            res matches HitResult::Hit { data } ==> t_min <= data.t <= t_max && data.uuid
                == self.uuid,
    {
        let oc = ray.origin.sub(&self.center);
        let a = ray.direction.length_squared();
        let half_b = Vec3::dot(&oc, &ray.direction);
        let c = fp_sub(oc.length_squared(), fp_mul(self.radius, self.radius));
        let discriminant = fp_sub(fp_mul(half_b, half_b), fp_mul(a, c));

        if discriminant < 0 {
            return HitResult::NoHit;
        }
        if a == 0 {
            return HitResult::NoHit;
        }

        let sqrt_discriminant = fp_sqrt(discriminant);
        let mut root = fp_div(fp_sub(fp_neg(half_b), sqrt_discriminant), a);

        if root < t_min || t_max < root {
            root = fp_div(fp_add(fp_neg(half_b), sqrt_discriminant), a);
            if root < t_min || t_max < root {
                return HitResult::NoHit;
            }
        }

        let hit_point = ray.at(root);
        let outward_normal = hit_point.sub(&self.center).div(self.radius);
        proof {
            lemma_normal_faces_incoming(ray.direction, outward_normal);
        }
        let data = HitResultData::builder().t(root).hit_point(hit_point).front_face_and_normal(
            ray,
            &outward_normal,
        ).uuid(self.uuid).build();
        HitResult::Hit { data }
    }
}

} // verus!
