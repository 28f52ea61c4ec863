//! Surface materials: a tagged kind with the parameters shading needs.

use vstd::prelude::*;

use crate::fixed::FP_SCALE;
use crate::fixed::Fp;
use crate::vec3::Vec3;

verus! {

/// The kind of scattering a surface performs.
#[derive(Clone, Copy, Debug, PartialEq, Eq, Structural)]
pub enum MaterialType {
    Diffuse,
    Metal,
    Glass,
}

/// The integer code a material kind is published under.
pub open spec fn material_value_s(m: MaterialType) -> int {
    match m {
        MaterialType::Diffuse => 0,
        MaterialType::Metal => 1,
        MaterialType::Glass => 2,
    }
}

impl MaterialType {
    /// The integer code of this kind, for hosts that index by number.
    pub fn value(&self) -> (r: i32)
        ensures
            r as int == material_value_s(*self),
    {
        match self {
            MaterialType::Diffuse => 0,
            MaterialType::Metal => 1,
            MaterialType::Glass => 2,
        }
    }
}

/// A surface material: its kind, reflectance color, metal roughness, and
/// glass refraction index.
#[derive(Clone, Copy, Debug, PartialEq, Eq, Structural)]
pub struct Material {
    pub material_type: MaterialType,
    pub albedo: Vec3,
    pub fuzz: Fp,
    pub refraction_index: Fp,
}

/// A material's fields are meaningful: the roughness lies in [0, 1] and the
/// refraction index is positive.
pub open spec fn material_inv(m: Material) -> bool {
    &&& 0 <= m.albedo.x <= FP_SCALE
    &&& 0 <= m.albedo.y <= FP_SCALE
    &&& 0 <= m.albedo.z <= FP_SCALE
    &&& 0 <= m.fuzz <= FP_SCALE
    &&& m.refraction_index > 0
}

impl Material {
    /// A material from raw parameters; the roughness is clamped into [0, 1].
    pub fn new(material_type: MaterialType, albedo: Vec3, fuzz: Fp, refraction_index: Fp) -> (r:
        Material)
        requires
            refraction_index > 0,
            0 <= albedo.x <= FP_SCALE,
            0 <= albedo.y <= FP_SCALE,
            0 <= albedo.z <= FP_SCALE,
        ensures
            r.material_type == material_type,
            r.albedo == albedo,
            r.fuzz == if fuzz < 0 {
                0
            } else if fuzz > FP_SCALE {
                FP_SCALE as int
            } else {
                fuzz as int
            },
            r.refraction_index == refraction_index,
            material_inv(r),
    {
        let clamped_fuzz: i64 = if fuzz < 0 {
            0
        } else if fuzz > FP_SCALE {
            FP_SCALE
        } else {
            fuzz
        };
        Material { material_type, albedo, fuzz: clamped_fuzz, refraction_index }
    }
}

} // verus!
