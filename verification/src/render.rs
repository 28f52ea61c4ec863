//! Recursive material-based color computation.
//!
//! A ray is tested against the scene; on a hit the material scatters it and
//! the scattered ray is traced with one less bounce left, and on a miss a
//! vertical sky gradient is returned. At the depth bound the ray is fully
//! absorbed: pure black, the recursion's sole other base case.
//!
//! Diffuse scattering uses the material-aware Lambertian formulation: the
//! bounced color is attenuated by the surface's albedo, never by a fixed
//! absorption factor.

use vstd::prelude::*;

use crate::fixed::FP_MAX;
use crate::fixed::FP_SCALE;
use crate::fixed::Fp;
use crate::fixed::fp_add;
use crate::fixed::fp_add_s;
use crate::fixed::fp_div;
use crate::fixed::fp_div_s;
use crate::fixed::fp_mul;
use crate::fixed::fp_mul_s;
use crate::fixed::fp_neg_s;
use crate::fixed::fp_sqrt;
use crate::fixed::fp_sqrt_s;
use crate::fixed::fp_sub;
use crate::fixed::fp_sub_s;
use crate::fixed::lemma_fp_unit_sq;
use crate::fixed::lemma_t_div_nonneg;
use crate::material::MaterialType;
use crate::ray::Ray;
use crate::rng::Rng;
use crate::rng::rng_step_s;
use crate::rng::rng_unit_s;
use crate::scene::HittableList;
use crate::scene::lemma_scene_characterization;
use crate::scene::scene_closest_s;
use crate::scene::spheres_wf;
use crate::sphere::Sphere;
use crate::sphere::sphere_hit_data_s;
use crate::sphere::sphere_hit_t_s;
use crate::sphere::sphere_inv;
use crate::vec3::Vec3;
use crate::vec3::ball_sample_s;
use crate::vec3::lemma_len_sq_nonneg;
use crate::vec3::unit_sample_s;
use crate::vec3::v_add_s;
use crate::vec3::v_div_s;
use crate::vec3::v_dot_s;
use crate::vec3::v_in_range;
use crate::vec3::v_len_s;
use crate::vec3::v_len_sq_s;
use crate::vec3::v_mul_s;
use crate::vec3::v_neg_s;
use crate::vec3::v_scale_s;
use crate::vec3::v_sub_s;

verus! {

/// Half a unit, for midpoint scaling.
pub const FP_HALF: i64 = 32768;

/// The lower end of every scene intersection range, suppressing
/// self-intersection acne near a scattering surface.
pub const T_MIN_FP: i64 = 66;

/// Pure black: full absorption.
pub open spec fn black_s() -> Vec3 {
    Vec3 { x: 0, y: 0, z: 0 }
}

/// The direction of a vector, or the upward axis when the squared length
/// rounds to zero and no direction is carried.
pub open spec fn unit_dir_s(d: Vec3) -> Vec3 {
    if v_len_sq_s(d) == 0 {
        Vec3 { x: 0, y: 0, z: FP_SCALE }
    } else {
        v_div_s(d, v_len_s(d))
    }
}

/// The background gradient a missed ray returns: white at the bottom of the
/// direction range blending to sky blue at the top.
pub open spec fn background_s(r: Ray) -> Vec3 {
    let u = unit_dir_s(r.direction);
    let tt = fp_mul_s(FP_HALF as int, fp_add_s(u.y as int, FP_SCALE as int));
    v_add_s(
        v_scale_s((Vec3 { x: FP_SCALE, y: FP_SCALE, z: FP_SCALE }), fp_sub_s(FP_SCALE as int, tt)),
        v_scale_s((Vec3 { x: 32768, y: 45875, z: 65536 }), tt),
    )
}

/// Mirror reflection about a surface normal.
pub open spec fn reflect_s(v: Vec3, n: Vec3) -> Vec3 {
    v_sub_s(v, v_scale_s(n, fp_mul_s(2 * FP_SCALE, v_dot_s(v, n))))
}

/// A cosine forced into [-1, 1].
pub open spec fn clamp_unit_s(x: int) -> int {
    if x > FP_SCALE {
        FP_SCALE as int
    } else if x < -FP_SCALE {
        -FP_SCALE as int
    } else {
        x
    }
}

/// Schlick's approximation of Fresnel reflectance.
pub open spec fn schlick_s(cos: int, ratio: int) -> int {
    let q = fp_div_s(fp_sub_s(FP_SCALE as int, ratio), fp_add_s(FP_SCALE as int, ratio));
    let r0 = fp_mul_s(q, q);
    let p = fp_sub_s(FP_SCALE as int, cos);
    let p2 = fp_mul_s(p, p);
    let p4 = fp_mul_s(p2, p2);
    let p5 = fp_mul_s(p4, p);
    fp_add_s(r0, fp_mul_s(fp_sub_s(FP_SCALE as int, r0), p5))
}

/// Snell-law refraction of a unit direction, with the magnitude of the
/// parallel part guarded so total internal reflection cannot fault.
pub open spec fn refract_s(uv: Vec3, n: Vec3, ratio: int, cos: int) -> Vec3 {
    let perp = v_scale_s(v_add_s(uv, v_scale_s(n, cos)), ratio);
    let k = fp_sub_s(FP_SCALE as int, v_len_sq_s(perp));
    let kabs = if k < 0 {
        -k
    } else {
        k
    };
    v_add_s(perp, v_scale_s(n, fp_neg_s(fp_sqrt_s(kabs))))
}

/// The color a ray gathers, and the generator state it leaves behind.
pub open spec fn ray_color_s(l: Seq<Sphere>, r: Ray, depth: u32, max_depth: u32, s0: u64) -> (
    Vec3,
    u64,
)
    decreases max_depth - depth,
{
    if depth >= max_depth {
        (black_s(), s0)
    } else {
        match scene_closest_s(l, r, T_MIN_FP as int, FP_MAX as int) {
            Option::None => (background_s(r), s0),
            Option::Some((sp, t)) => {
                let data = sphere_hit_data_s(sp, r, t);
                match sp.material.material_type {
                    MaterialType::Diffuse => {
                        let s3 = rng_step_s(rng_step_s(rng_step_s(s0)));
                        let scatter = v_add_s(data.normal, unit_sample_s(s0));
                        let dir = if scatter.x == 0 && scatter.y == 0 && scatter.z == 0 {
                            data.normal
                        } else {
                            scatter
                        };
                        let rec = ray_color_s(
                            l,
                            Ray { origin: data.hit_point, direction: dir },
                            (depth + 1) as u32,
                            max_depth,
                            s3,
                        );
                        (v_mul_s(sp.material.albedo, rec.0), rec.1)
                    },
                    MaterialType::Metal => {
                        let s3 = rng_step_s(rng_step_s(rng_step_s(s0)));
                        let scatter = v_add_s(
                            reflect_s(r.direction, data.normal),
                            v_scale_s(ball_sample_s(s0), sp.material.fuzz as int),
                        );
                        if v_dot_s(scatter, data.normal) <= 0 {
                            (black_s(), s3)
                        } else {
                            let rec = ray_color_s(
                                l,
                                Ray { origin: data.hit_point, direction: scatter },
                                (depth + 1) as u32,
                                max_depth,
                                s3,
                            );
                            (v_mul_s(sp.material.albedo, rec.0), rec.1)
                        }
                    },
                    MaterialType::Glass => {
                        let ratio = if data.front_face {
                            fp_div_s(FP_SCALE as int, sp.material.refraction_index as int)
                        } else {
                            sp.material.refraction_index as int
                        };
                        let unit = unit_dir_s(r.direction);
                        let cos = clamp_unit_s(v_dot_s(v_neg_s(unit), data.normal));
                        let sin = fp_sqrt_s(fp_sub_s(FP_SCALE as int, fp_mul_s(cos, cos)));
                        let s1 = rng_step_s(s0);
                        let dir = if fp_mul_s(ratio, sin) > FP_SCALE || schlick_s(cos, ratio)
                            > rng_unit_s(s1) {
                            reflect_s(unit, data.normal)
                        } else {
                            refract_s(unit, data.normal, ratio, cos)
                        };
                        ray_color_s(
                            l,
                            Ray { origin: data.hit_point, direction: dir },
                            (depth + 1) as u32,
                            max_depth,
                            s1,
                        )
                    },
                }
            },
        }
    }
}

/// The direction of a vector, or the upward axis for one that carries none.
pub fn unit_direction(d: &Vec3) -> (u: Vec3)
    ensures
        u == unit_dir_s(*d),
        v_in_range(u),
{
    proof {
        lemma_len_sq_nonneg(*d);
    }
    if d.length_squared() == 0 {
        Vec3 { x: 0, y: 0, z: FP_SCALE }
    } else {
        (*d).normalize()
    }
}

/// The background gradient for a ray that hits nothing.
pub fn background(ray: &Ray) -> (c: Vec3)
    ensures
        c == background_s(*ray),
        v_in_range(c),
{
    let u = unit_direction(&ray.direction);
    let tt = fp_mul(FP_HALF, fp_add(u.y, FP_SCALE));
    let white = Vec3 { x: FP_SCALE, y: FP_SCALE, z: FP_SCALE };
    let sky = Vec3 { x: 32768, y: 45875, z: 65536 };
    white.scale(fp_sub(FP_SCALE, tt)).add(&sky.scale(tt))
}

/// Mirror reflection about a surface normal.
pub fn reflect(v: &Vec3, n: &Vec3) -> (r: Vec3)
    ensures
        r == reflect_s(*v, *n),
        v_in_range(r),
{
    v.sub(&n.scale(fp_mul(2 * FP_SCALE, Vec3::dot(v, n))))
}

/// A cosine forced into [-1, 1].
fn clamp_unit(x: Fp) -> (r: Fp)
    ensures
        r as int == clamp_unit_s(x as int),
        -FP_SCALE <= r <= FP_SCALE,
{
    if x > FP_SCALE {
        FP_SCALE
    } else if x < -FP_SCALE {
        -FP_SCALE
    } else {
        x
    }
}

/// Schlick's approximation of Fresnel reflectance.
fn schlick(cos: Fp, ratio: Fp) -> (r: Fp)
    requires
        ratio >= 0,
    ensures
        r as int == schlick_s(cos as int, ratio as int),
{
    let q = fp_div(fp_sub(FP_SCALE, ratio), fp_add(FP_SCALE, ratio));
    let r0 = fp_mul(q, q);
    let p = fp_sub(FP_SCALE, cos);
    let p2 = fp_mul(p, p);
    let p4 = fp_mul(p2, p2);
    let p5 = fp_mul(p4, p);
    fp_add(r0, fp_mul(fp_sub(FP_SCALE, r0), p5))
}

/// Snell-law refraction of a unit direction.
fn refract(uv: &Vec3, n: &Vec3, ratio: Fp, cos: Fp) -> (r: Vec3)
    ensures
        r == refract_s(*uv, *n, ratio as int, cos as int),
        v_in_range(r),
{
    let perp = uv.add(&n.scale(cos)).scale(ratio);
    let k = fp_sub(FP_SCALE, perp.length_squared());
    let kabs = if k < 0 {
        -k
    } else {
        k
    };
    perp.add(&n.scale(crate::fixed::fp_neg(fp_sqrt(kabs))))
}

/// The color gathered by a ray: black at the depth bound, the background
/// gradient on a miss, and otherwise the struck material's scattering,
/// attenuated and traced one bounce deeper. The result and the generator
/// are a pure function of the scene, the ray, the depth, and the seed.
pub fn ray_color(world: &HittableList, ray: &Ray, depth: u32, max_depth: u32, rng: &mut Rng) -> (c:
    Vec3)
    requires
        spheres_wf(world.list@),
    ensures
        c == ray_color_s(world.list@, *ray, depth, max_depth, old(rng).state).0,
        final(rng).state == ray_color_s(world.list@, *ray, depth, max_depth, old(rng).state).1,
        depth >= max_depth ==> c == black_s(),
        v_in_range(c),
    decreases max_depth - depth,
{
    if depth >= max_depth {
        return Vec3 { x: 0, y: 0, z: 0 };
    }
    let hit = world.closest_hit(ray, T_MIN_FP, FP_MAX);
    match hit {
        Option::None => background(ray),
        Option::Some((sphere, data)) => {
            proof {
                lemma_scene_characterization(world.list@, *ray, T_MIN_FP as int, FP_MAX as int);
                let wi = choose|i: int|
                    0 <= i < world.list@.len() && world.list@[i] == sphere
                        && #[trigger] sphere_hit_t_s(world.list@[i], *ray, T_MIN_FP as int,
                        FP_MAX as int) is Some;
                assert(sphere_inv(world.list@[wi]));
            }
            match sphere.material.material_type {
                MaterialType::Diffuse => {
                    let unit = Vec3::random_unit_vector(rng);
                    let scatter = data.normal.add(&unit);
                    let dir = if scatter.near_zero() {
                        data.normal
                    } else {
                        scatter
                    };
                    let rec = ray_color(
                        world,
                        &Ray { origin: data.hit_point, direction: dir },
                        depth + 1,
                        max_depth,
                        rng,
                    );
                    sphere.material.albedo.mul(&rec)
                },
                MaterialType::Metal => {
                    let ball = Vec3::random_point_in_unit_sphere(rng);
                    let scatter = reflect(&ray.direction, &data.normal).add(
                        &ball.scale(sphere.material.fuzz),
                    );
                    if Vec3::dot(&scatter, &data.normal) <= 0 {
                        Vec3 { x: 0, y: 0, z: 0 }
                    } else {
                        let rec = ray_color(
                            world,
                            &Ray { origin: data.hit_point, direction: scatter },
                            depth + 1,
                            max_depth,
                            rng,
                        );
                        sphere.material.albedo.mul(&rec)
                    }
                },
                MaterialType::Glass => {
                    let ratio = if data.front_face {
                        fp_div(FP_SCALE, sphere.material.refraction_index)
                    } else {
                        sphere.material.refraction_index
                    };
                    proof {
                        if data.front_face {
                            lemma_t_div_nonneg(FP_SCALE * FP_SCALE, sphere.material.refraction_index as int);
                        }
                    }
                    let unit = unit_direction(&ray.direction);
                    let cos = clamp_unit(Vec3::dot(&unit.neg(), &data.normal));
                    proof {
                        lemma_fp_unit_sq(cos as int);
                    }
                    let sin = fp_sqrt(fp_sub(FP_SCALE, fp_mul(cos, cos)));
                    let draw = rng.next_unit();
                    let dir = if fp_mul(ratio, sin) > FP_SCALE || schlick(cos, ratio) > draw {
                        reflect(&unit, &data.normal)
                    } else {
                        refract(&unit, &data.normal, ratio, cos)
                    };
                    ray_color(
                        world,
                        &Ray { origin: data.hit_point, direction: dir },
                        depth + 1,
                        max_depth,
                        rng,
                    )
                },
            }
        },
    }
}

} // verus!
