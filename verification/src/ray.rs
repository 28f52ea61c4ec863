//! Rays: parametric lines from an origin along a direction.

use vstd::prelude::*;

use crate::fixed::Fp;
use crate::vec3::Vec3;
use crate::vec3::v_add_s;
use crate::vec3::v_in_range;
use crate::vec3::v_scale_s;

verus! {

/// A ray: all points `origin + t * direction` for scalar `t`.
#[derive(Clone, Copy, Debug, PartialEq, Eq, Structural)]
pub struct Ray {
    pub origin: Vec3,
    pub direction: Vec3,
}

/// The point a parameter value picks on a ray.
pub open spec fn ray_at_s(r: Ray, t: int) -> Vec3 {
    v_add_s(r.origin, v_scale_s(r.direction, t))
}

impl Ray {
    /// The point at parameter `t`; any `t`, negative or large, is
    /// meaningful, and range checks are the callers' business.
    pub fn at(&self, t: Fp) -> (p: Vec3)
        ensures
            p == ray_at_s(*self, t as int),
            v_in_range(p),
    {
        self.origin.add(&self.direction.scale(t))
    }
}

} // verus!
