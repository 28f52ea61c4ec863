//! The axis-aligned default camera: normalized image-plane coordinates to
//! world-space rays.

use vstd::prelude::*;

use crate::fixed::FP_SCALE;
use crate::fixed::Fp;
use crate::fixed::fp_div;
use crate::fixed::fp_div_s;
use crate::fixed::fp_mul;
use crate::fixed::fp_mul_s;
use crate::ray::Ray;
use crate::vec3::Vec3;
use crate::vec3::v_add_s;
use crate::vec3::v_div_s;
use crate::vec3::v_scale_s;
use crate::vec3::v_sub_s;

verus! {

/// A camera: origin, viewport extents, and the derived corner from which
/// image-plane coordinates are measured.
pub struct Camera {
    pub aspect_ratio: Fp,
    pub viewport_height: Fp,
    pub viewport_width: Fp,
    pub focal_length: Fp,
    pub origin: Vec3,
    pub viewport_horizontal_vec: Vec3,
    pub viewport_vertical_vec: Vec3,
    pub lower_left_corner: Vec3,
}

/// The default camera's aspect ratio, sixteen to nine.
pub open spec fn default_aspect_s() -> int {
    fp_div_s(16 * FP_SCALE, 9 * FP_SCALE)
}

/// The default camera's viewport width.
pub open spec fn default_viewport_width_s() -> int {
    fp_mul_s(default_aspect_s(), 2 * FP_SCALE)
}

/// The default camera's lower-left viewport corner.
pub open spec fn default_lower_left_s() -> Vec3 {
    let h = Vec3 { x: default_viewport_width_s() as i64, y: 0, z: 0 };
    let v = Vec3 { x: 0, y: (2 * FP_SCALE) as i64, z: 0 };
    let origin = Vec3 { x: 0, y: 0, z: 0 };
    v_sub_s(
        v_sub_s(
            v_sub_s(origin, v_div_s(h, 2 * FP_SCALE)),
            v_div_s(v, 2 * FP_SCALE),
        ),
        Vec3 { x: 0, y: 0, z: FP_SCALE },
    )
}

/// The default camera: at the world origin, looking down the negative z
/// axis, with a two-unit-high viewport one focal length away.
pub open spec fn camera_default_s() -> Camera {
    Camera {
        aspect_ratio: default_aspect_s() as i64,
        viewport_height: (2 * FP_SCALE) as i64,
        viewport_width: default_viewport_width_s() as i64,
        focal_length: FP_SCALE,
        origin: Vec3 { x: 0, y: 0, z: 0 },
        viewport_horizontal_vec: Vec3 { x: default_viewport_width_s() as i64, y: 0, z: 0 },
        viewport_vertical_vec: Vec3 { x: 0, y: (2 * FP_SCALE) as i64, z: 0 },
        lower_left_corner: default_lower_left_s(),
    }
}

/// The ray through image-plane coordinates (u, v), measured from the lower
/// left of the viewport.
pub open spec fn camera_ray_s(c: Camera, u: int, v: int) -> Ray {
    Ray {
        origin: c.origin,
        direction: v_sub_s(
            v_add_s(
                v_add_s(c.lower_left_corner, v_scale_s(c.viewport_horizontal_vec, u)),
                v_scale_s(c.viewport_vertical_vec, v),
            ),
            c.origin,
        ),
    }
}

impl Default for Camera {
    /// The default camera, as `camera_default_s` lays it out.
    fn default() -> (c: Camera)
        ensures
            c == camera_default_s(),
    {
        let aspect_ratio = fp_div(16 * FP_SCALE, 9 * FP_SCALE);
        let viewport_height = 2 * FP_SCALE;
        let viewport_width = fp_mul(aspect_ratio, viewport_height);
        let focal_length = FP_SCALE;
        let origin = Vec3 { x: 0, y: 0, z: 0 };
        let viewport_horizontal_vec = Vec3 { x: viewport_width, y: 0, z: 0 };
        let viewport_vertical_vec = Vec3 { x: 0, y: viewport_height, z: 0 };
        let lower_left_corner = origin.sub(&viewport_horizontal_vec.div(2 * FP_SCALE)).sub(
            &viewport_vertical_vec.div(2 * FP_SCALE),
        ).sub(&Vec3 { x: 0, y: 0, z: focal_length });

        Camera {
            aspect_ratio,
            viewport_height,
            viewport_width,
            focal_length,
            origin,
            viewport_horizontal_vec,
            viewport_vertical_vec,
            lower_left_corner,
        }
    }
}

impl Camera {
    /// The ray from the camera's position through the viewport point that
    /// the normalized coordinates (u, v) name; u and v run from zero at the
    /// lower left corner to one.
    pub fn get_ray(&self, u: Fp, v: Fp) -> (r: Ray)
        ensures
            r == camera_ray_s(*self, u as int, v as int),
            r.origin == self.origin,
    {
        Ray {
            origin: self.origin,
            direction: self.lower_left_corner.add(
                &self.viewport_horizontal_vec.scale(u),
            ).add(&self.viewport_vertical_vec.scale(v)).sub(&self.origin),
        }
    }
}

} // verus!
