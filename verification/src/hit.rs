//! Intersection records and the invariant that their normals obey.

use vstd::prelude::*;

use crate::fixed::Fp;
use crate::ray::Ray;
use crate::vec3::Vec3;
use crate::vec3::v_dot_s;
use crate::vec3::v_in_range;
use crate::vec3::v_neg_s;

verus! {

/// The outcome of testing a ray against geometry.
#[derive(Clone, Copy, Debug, PartialEq, Eq, Structural)]
pub enum HitResult {
    Hit { data: HitResultData },
    NoHit,
}

/// What a successful intersection reports.
#[derive(Clone, Copy, Debug, PartialEq, Eq, Structural)]
pub struct HitResultData {
    pub hit_point: Vec3,
    pub normal: Vec3,
    pub t: Fp,
    pub front_face: bool,
    pub uuid: i32,
}

/// Whether a ray meets a surface from the side its outward normal names.
pub open spec fn front_face_s(dir: Vec3, outward_normal: Vec3) -> bool {
    v_dot_s(dir, outward_normal) < 0
}

/// The recorded normal: the outward normal turned against the ray.
pub open spec fn facing_normal_s(dir: Vec3, outward_normal: Vec3) -> Vec3 {
    if front_face_s(dir, outward_normal) {
        outward_normal
    } else {
        v_neg_s(outward_normal)
    }
}

/// Negating one argument of a dot product negates the rounded result.
pub proof fn lemma_dot_neg(a: Vec3, b: Vec3)
    requires
        v_in_range(b),
    ensures
        v_dot_s(a, v_neg_s(b)) == -v_dot_s(a, b),
{
    assert((a.x as int) * (-(b.x as int)) == -((a.x as int) * (b.x as int))) by (nonlinear_arith);
    assert((a.y as int) * (-(b.y as int)) == -((a.y as int) * (b.y as int))) by (nonlinear_arith);
    assert((a.z as int) * (-(b.z as int)) == -((a.z as int) * (b.z as int))) by (nonlinear_arith);
}

/// The normal a hit records never points with the incoming ray: its dot
/// product with the ray direction is never positive.
pub proof fn lemma_normal_faces_incoming(dir: Vec3, outward_normal: Vec3)
    requires
        v_in_range(outward_normal),
    ensures
        v_dot_s(dir, facing_normal_s(dir, outward_normal)) <= 0,
{
    if !front_face_s(dir, outward_normal) {
        lemma_dot_neg(dir, outward_normal);
    }
}

impl HitResultData {
    /// Begin assembling a record field by field.
    pub fn builder() -> (r: HitResultDataBuilder)
        ensures
            r == HitResultDataBuilder::empty_s(),
    {
        HitResultDataBuilder::new()
    }
}

/// Assembles a `HitResultData` one field at a time.
#[derive(Clone, Copy, Debug, PartialEq, Eq, Structural)]
pub struct HitResultDataBuilder {
    pub hit_point: Vec3,
    pub t: Fp,
    pub normal: Vec3,
    pub front_face: bool,
    pub uuid: i32,
}

impl HitResultDataBuilder {
    /// The builder with nothing recorded.
    pub open spec fn empty_s() -> HitResultDataBuilder {
        HitResultDataBuilder {
            hit_point: Vec3 { x: 0, y: 0, z: 0 },
            t: 0,
            normal: Vec3 { x: 0, y: 0, z: 0 },
            front_face: false,
            uuid: 0,
        }
    }

    /// A builder with nothing recorded.
    pub fn new() -> (r: HitResultDataBuilder)
        ensures
            r == HitResultDataBuilder::empty_s(),
    {
        HitResultDataBuilder {
            hit_point: Vec3 { x: 0, y: 0, z: 0 },
            t: 0,
            normal: Vec3 { x: 0, y: 0, z: 0 },
            front_face: false,
            uuid: 0,
        }
    }

    /// Record the intersection point.
    pub fn hit_point(self, hit_point: Vec3) -> (r: HitResultDataBuilder)
        ensures
            r == (HitResultDataBuilder { hit_point, ..self }),
    {
        HitResultDataBuilder { hit_point, ..self }
    }

    /// Record the ray parameter of the intersection.
    pub fn t(self, t: Fp) -> (r: HitResultDataBuilder)
        ensures
            r == (HitResultDataBuilder { t, ..self }),
    {
        HitResultDataBuilder { t, ..self }
    }

    /// Record the identity of the object that was struck.
    pub fn uuid(self, uuid: i32) -> (r: HitResultDataBuilder)
        ensures
            r == (HitResultDataBuilder { uuid, ..self }),
    {
        HitResultDataBuilder { uuid, ..self }
    }

    /// Record the front-face flag and the normal turned against the ray,
    /// from the ray and the geometric outward normal.
    pub fn front_face_and_normal(self, r: &Ray, outward_normal: &Vec3) -> (b:
        HitResultDataBuilder)
        ensures
            b == (HitResultDataBuilder {
                front_face: front_face_s(r.direction, *outward_normal),
                normal: facing_normal_s(r.direction, *outward_normal),
                ..self
            }),
    {
        let front_face = Vec3::dot(&r.direction, outward_normal) < 0;
        let normal = if front_face {
            *outward_normal
        } else {
            outward_normal.neg()
        };
        HitResultDataBuilder { front_face, normal, ..self }
    }

    /// The assembled record.
    pub fn build(self) -> (r: HitResultData)
        ensures
            r == (HitResultData {
                hit_point: self.hit_point,
                normal: self.normal,
                t: self.t,
                front_face: self.front_face,
                uuid: self.uuid,
            }),
    {
        HitResultData {
            hit_point: self.hit_point,
            normal: self.normal,
            t: self.t,
            front_face: self.front_face,
            uuid: self.uuid,
        }
    }
}

} // verus!
