//! Geometry-level behavior: fixed-point arithmetic, vectors, rays, the
//! sphere intersection test, and scene traversal.

use raytracer::fixed::{fp_add, fp_cbrt, fp_div, fp_mul, fp_neg, fp_sqrt, fp_sub, FP_MAX, FP_SCALE};
use raytracer::hit::{HitResult, HitResultData};
use raytracer::material::{Material, MaterialType};
use raytracer::ray::Ray;
use raytracer::scene::{hit_spheres, set_sphere_uuids, HittableList};
use raytracer::sphere::Sphere;
use raytracer::vec3::Vec3;

fn diffuse_gray() -> Material {
    Material::new(
        MaterialType::Diffuse,
        Vec3 { x: FP_SCALE / 2, y: FP_SCALE / 2, z: FP_SCALE / 2 },
        0,
        FP_SCALE,
    )
}

fn sphere_at(z: i64, radius: i64, uuid: i32) -> Sphere {
    Sphere { center: Vec3 { x: 0, y: 0, z }, radius, material: diffuse_gray(), uuid }
}

#[test]
fn fixed_point_arithmetic_is_exact() {
    // 2.0 * 3.0 == 6.0
    assert_eq!(fp_mul(2 * FP_SCALE, 3 * FP_SCALE), 6 * FP_SCALE);
    // -3.0 / 2.0 == -1.5, truncation toward zero is exact here
    assert_eq!(fp_div(-3 * FP_SCALE, 2 * FP_SCALE), -(FP_SCALE + FP_SCALE / 2));
    // 1/3 rounds toward zero
    assert_eq!(fp_div(FP_SCALE, 3 * FP_SCALE), 21845);
    assert_eq!(fp_sub(FP_SCALE, 3 * FP_SCALE), -2 * FP_SCALE);
    assert_eq!(fp_neg(-5), 5);
    // saturation instead of overflow
    assert_eq!(fp_add(FP_MAX, FP_MAX), FP_MAX);
    assert_eq!(fp_mul(FP_MAX, FP_MAX), FP_MAX);
    assert_eq!(fp_neg(FP_MAX), -FP_MAX);
}

#[test]
fn square_and_cube_roots_are_exact_on_perfect_inputs() {
    assert_eq!(fp_sqrt(FP_SCALE), FP_SCALE); // sqrt(1) == 1
    assert_eq!(fp_sqrt(FP_SCALE / 4), FP_SCALE / 2); // sqrt(0.25) == 0.5
    assert_eq!(fp_sqrt(4 * FP_SCALE), 2 * FP_SCALE); // sqrt(4) == 2
    assert_eq!(fp_sqrt(0), 0);
    assert_eq!(fp_cbrt(FP_SCALE), FP_SCALE); // cbrt(1) == 1
    assert_eq!(fp_cbrt(0), 0);
    // cbrt(0.125) == 0.5
    assert_eq!(fp_cbrt(FP_SCALE / 8), FP_SCALE / 2);
}

#[test]
fn vector_algebra_matches_componentwise_formulas() {
    let a = Vec3 { x: FP_SCALE, y: 2 * FP_SCALE, z: 3 * FP_SCALE };
    let b = Vec3 { x: 4 * FP_SCALE, y: 5 * FP_SCALE, z: 6 * FP_SCALE };
    assert_eq!(a.add(&b), Vec3 { x: 5 * FP_SCALE, y: 7 * FP_SCALE, z: 9 * FP_SCALE });
    assert_eq!(b.sub(&a), Vec3 { x: 3 * FP_SCALE, y: 3 * FP_SCALE, z: 3 * FP_SCALE });
    assert_eq!(a.mul(&b), Vec3 { x: 4 * FP_SCALE, y: 10 * FP_SCALE, z: 18 * FP_SCALE });
    assert_eq!(a.scale(2 * FP_SCALE), Vec3 { x: 2 * FP_SCALE, y: 4 * FP_SCALE, z: 6 * FP_SCALE });
    assert_eq!(a.neg().x(), -FP_SCALE);
    assert_eq!(Vec3::dot(&a, &b), 32 * FP_SCALE);
    // (1,0,0) x (0,1,0) == (0,0,1)
    let e1 = Vec3 { x: FP_SCALE, y: 0, z: 0 };
    let e2 = Vec3 { x: 0, y: FP_SCALE, z: 0 };
    assert_eq!(Vec3::cross(&e1, &e2), Vec3 { x: 0, y: 0, z: FP_SCALE });
    assert_eq!(
        Vec3 { x: 4 * FP_SCALE, y: 9 * FP_SCALE, z: 16 * FP_SCALE }.div_elem(
            &Vec3 { x: 2 * FP_SCALE, y: 3 * FP_SCALE, z: 4 * FP_SCALE }
        ),
        Vec3 { x: 2 * FP_SCALE, y: 3 * FP_SCALE, z: 4 * FP_SCALE }
    );
    assert_eq!(
        Vec3 { x: 3 * FP_SCALE, y: 0, z: 0 }.div(2 * FP_SCALE),
        Vec3 { x: FP_SCALE + FP_SCALE / 2, y: 0, z: 0 }
    );
    assert!(Vec3 { x: 0, y: 0, z: 0 }.near_zero());
    assert!(!a.near_zero());
    // (1 + 0) * 0.5 per component
    assert_eq!(
        Vec3::new().map_to_color_range(),
        Vec3 { x: FP_SCALE / 2, y: FP_SCALE / 2, z: FP_SCALE / 2 }
    );
}

#[test]
fn normalize_produces_the_expected_direction() {
    let v = Vec3 { x: 3 * FP_SCALE, y: 0, z: 4 * FP_SCALE };
    assert_eq!(v.length_squared(), 25 * FP_SCALE);
    assert_eq!(v.length(), 5 * FP_SCALE);
    let n = v.normalize();
    // 0.6 and 0.8, truncated toward zero in the last place
    assert_eq!(n.x, fp_div(3 * FP_SCALE, 5 * FP_SCALE));
    assert_eq!(n.y, 0);
    assert_eq!(n.z, fp_div(4 * FP_SCALE, 5 * FP_SCALE));
}

#[test]
fn ray_at_walks_the_parametric_line() {
    let r = Ray {
        origin: Vec3 { x: FP_SCALE, y: 0, z: 0 },
        direction: Vec3 { x: 0, y: FP_SCALE, z: 0 },
    };
    assert_eq!(r.at(2 * FP_SCALE), Vec3 { x: FP_SCALE, y: 2 * FP_SCALE, z: 0 });
    // negative parameters are meaningful
    assert_eq!(r.at(-FP_SCALE), Vec3 { x: FP_SCALE, y: -FP_SCALE, z: 0 });
}

#[test]
fn head_on_hit_reports_exact_parameter_and_normal() {
    // Sphere centered at (0,0,-1) with radius 0.5, ray from the origin
    // toward (0,0,-1): the hit is at t == 0.5 with normal (0,0,1) on the
    // front face, exactly.
    let sphere = sphere_at(-FP_SCALE, FP_SCALE / 2, 7);
    let ray = Ray {
        origin: Vec3 { x: 0, y: 0, z: 0 },
        direction: Vec3 { x: 0, y: 0, z: -FP_SCALE },
    };
    match sphere.hit(&ray, 0, FP_MAX) {
        HitResult::Hit { data } => {
            assert_eq!(data.t, FP_SCALE / 2);
            assert_eq!(data.normal, Vec3 { x: 0, y: 0, z: FP_SCALE });
            assert_eq!(data.hit_point, Vec3 { x: 0, y: 0, z: -FP_SCALE / 2 });
            assert!(data.front_face);
            assert_eq!(data.uuid, 7);
        }
        HitResult::NoHit => panic!("expected a hit"),
    }
}

#[test]
fn negative_discriminant_is_no_hit() {
    // A ray pointing away from the sphere misses it.
    let sphere = sphere_at(-5 * FP_SCALE, FP_SCALE / 2, 0);
    let ray = Ray {
        origin: Vec3 { x: 0, y: 0, z: 0 },
        direction: Vec3 { x: FP_SCALE, y: 0, z: 0 },
    };
    assert!(matches!(sphere.hit(&ray, 0, FP_MAX), HitResult::NoHit));
    // Grazing far to the side of a small sphere: discriminant barely
    // negative still reports no hit.
    let graze = Ray {
        origin: Vec3 { x: 0, y: FP_SCALE / 2 + 1024, z: 0 },
        direction: Vec3 { x: 0, y: 0, z: -FP_SCALE },
    };
    assert!(matches!(sphere_at(-FP_SCALE, FP_SCALE / 2, 0).hit(&graze, 0, FP_MAX), HitResult::NoHit));
}

#[test]
fn tangency_boundary_separates_hit_from_miss() {
    // A ray grazing the sphere exactly at its top: in this arithmetic the
    // discriminant is exactly zero, one representable step below the miss.
    let sphere = sphere_at(-FP_SCALE, FP_SCALE / 2, 0);
    let touch = Ray {
        origin: Vec3 { x: 0, y: FP_SCALE / 2, z: 0 },
        direction: Vec3 { x: 0, y: 0, z: -FP_SCALE },
    };
    match sphere.hit(&touch, 0, FP_MAX) {
        HitResult::Hit { data } => assert_eq!(data.t, FP_SCALE),
        HitResult::NoHit => panic!("an exactly tangent ray touches the sphere"),
    }
    // One representable step higher the discriminant turns negative and
    // the same geometry reports no hit.
    let above = Ray {
        origin: Vec3 { x: 0, y: FP_SCALE / 2 + 1, z: 0 },
        direction: Vec3 { x: 0, y: 0, z: -FP_SCALE },
    };
    assert!(matches!(sphere.hit(&above, 0, FP_MAX), HitResult::NoHit));
}

#[test]
fn far_root_is_used_when_near_root_is_out_of_range() {
    // The same head-on sphere, but the range starts past the near side:
    // the far side at t == 1.5 must be reported, not a miss.
    let sphere = sphere_at(-FP_SCALE, FP_SCALE / 2, 0);
    let ray = Ray {
        origin: Vec3 { x: 0, y: 0, z: 0 },
        direction: Vec3 { x: 0, y: 0, z: -FP_SCALE },
    };
    match sphere.hit(&ray, FP_SCALE, FP_MAX) {
        HitResult::Hit { data } => {
            assert_eq!(data.t, FP_SCALE + FP_SCALE / 2);
            // hit from inside: the outward normal is flipped back at us
            assert!(!data.front_face);
            assert_eq!(data.normal, Vec3 { x: 0, y: 0, z: FP_SCALE });
        }
        HitResult::NoHit => panic!("expected the far root"),
    }
}

#[test]
fn recorded_normal_never_points_with_the_ray() {
    let spheres = [
        sphere_at(-FP_SCALE, FP_SCALE / 2, 0),
        sphere_at(-3 * FP_SCALE, FP_SCALE, 1),
        Sphere {
            center: Vec3 { x: FP_SCALE / 4, y: -FP_SCALE / 8, z: -2 * FP_SCALE },
            radius: FP_SCALE / 2,
            material: diffuse_gray(),
            uuid: 2,
        },
    ];
    let rays = [
        Ray { origin: Vec3 { x: 0, y: 0, z: 0 }, direction: Vec3 { x: 0, y: 0, z: -FP_SCALE } },
        Ray {
            origin: Vec3 { x: 0, y: 0, z: -FP_SCALE },
            direction: Vec3 { x: 655, y: -655, z: -FP_SCALE },
        },
        Ray {
            origin: Vec3 { x: -FP_SCALE, y: FP_SCALE / 2, z: 0 },
            direction: Vec3 { x: 13107, y: -6554, z: -FP_SCALE },
        },
    ];
    for sphere in spheres.iter() {
        for ray in rays.iter() {
            if let HitResult::Hit { data } = sphere.hit(ray, 0, FP_MAX) {
                assert!(Vec3::dot(&ray.direction, &data.normal) <= 0);
            }
        }
    }
}

#[test]
fn scene_returns_globally_nearest_hit_in_any_order() {
    let near = sphere_at(-FP_SCALE, FP_SCALE / 2, 1);
    let far = sphere_at(-3 * FP_SCALE, FP_SCALE / 2, 2);
    let ray = Ray {
        origin: Vec3 { x: 0, y: 0, z: 0 },
        direction: Vec3 { x: 0, y: 0, z: -FP_SCALE },
    };
    let ordered = HittableList { list: vec![near, far] };
    let reversed = HittableList { list: vec![far, near] };
    let t1 = match ordered.hit(&ray, 0, FP_MAX) {
        HitResult::Hit { data } => data.t,
        HitResult::NoHit => panic!("expected a hit"),
    };
    let t2 = match reversed.hit(&ray, 0, FP_MAX) {
        HitResult::Hit { data } => data.t,
        HitResult::NoHit => panic!("expected a hit"),
    };
    assert_eq!(t1, t2);
    assert_eq!(t1, FP_SCALE / 2);
}

#[test]
fn scene_tie_goes_to_the_later_object() {
    // Two identical spheres: the shrinking range is inclusive, so the
    // later object wins the exact tie.
    let a = sphere_at(-FP_SCALE, FP_SCALE / 2, 10);
    let b = sphere_at(-FP_SCALE, FP_SCALE / 2, 20);
    let ray = Ray {
        origin: Vec3 { x: 0, y: 0, z: 0 },
        direction: Vec3 { x: 0, y: 0, z: -FP_SCALE },
    };
    let world = HittableList { list: vec![a, b] };
    match world.hit(&ray, 0, FP_MAX) {
        HitResult::Hit { data } => assert_eq!(data.uuid, 20),
        HitResult::NoHit => panic!("expected a hit"),
    }
}

#[test]
fn empty_scene_reports_no_hit() {
    let world = HittableList { list: vec![] };
    let ray = Ray {
        origin: Vec3 { x: 0, y: 0, z: 0 },
        direction: Vec3 { x: 0, y: 0, z: -FP_SCALE },
    };
    assert!(matches!(world.hit(&ray, 0, FP_MAX), HitResult::NoHit));
}

#[test]
fn hit_spheres_free_function_agrees_with_the_list() {
    let near = sphere_at(-FP_SCALE, FP_SCALE / 2, 1);
    let list = vec![near];
    let ray = Ray {
        origin: Vec3 { x: 0, y: 0, z: 0 },
        direction: Vec3 { x: 0, y: 0, z: -FP_SCALE },
    };
    match hit_spheres(&list, &ray, 0, FP_MAX) {
        HitResult::Hit { data } => assert_eq!(data.t, FP_SCALE / 2),
        HitResult::NoHit => panic!("expected a hit"),
    }
}

#[test]
fn set_sphere_uuids_numbers_objects_by_position() {
    let mut spheres = vec![
        sphere_at(-FP_SCALE, FP_SCALE / 2, 99),
        sphere_at(-2 * FP_SCALE, FP_SCALE / 2, 99),
        sphere_at(-3 * FP_SCALE, FP_SCALE / 2, 99),
    ];
    set_sphere_uuids(&mut spheres);
    assert_eq!(spheres[0].uuid, 0);
    assert_eq!(spheres[1].uuid, 1);
    assert_eq!(spheres[2].uuid, 2);
    assert_eq!(spheres[1].center.z, -2 * FP_SCALE);
}

#[test]
fn builder_flips_the_normal_on_back_faces() {
    let ray = Ray {
        origin: Vec3 { x: 0, y: 0, z: 0 },
        direction: Vec3 { x: 0, y: 0, z: -FP_SCALE },
    };
    // Outward normal along the ray: a back face; the record flips it.
    let outward = Vec3 { x: 0, y: 0, z: -FP_SCALE };
    let data = HitResultData::builder()
        .t(FP_SCALE)
        .hit_point(Vec3 { x: 0, y: 0, z: -FP_SCALE })
        .front_face_and_normal(&ray, &outward)
        .uuid(3)
        .build();
    assert!(!data.front_face);
    assert_eq!(data.normal, Vec3 { x: 0, y: 0, z: FP_SCALE });
    assert_eq!(data.uuid, 3);
    assert_eq!(data.t, FP_SCALE);
}

#[test]
fn material_constructor_clamps_fuzz() {
    let albedo = Vec3 { x: FP_SCALE / 2, y: FP_SCALE / 2, z: FP_SCALE / 2 };
    assert_eq!(Material::new(MaterialType::Metal, albedo, -5, FP_SCALE).fuzz, 0);
    assert_eq!(Material::new(MaterialType::Metal, albedo, 3 * FP_SCALE, FP_SCALE).fuzz, FP_SCALE);
    assert_eq!(Material::new(MaterialType::Metal, albedo, 100, FP_SCALE).fuzz, 100);
}

#[test]
fn material_type_codes_are_stable() {
    assert_eq!(MaterialType::Diffuse.value(), 0);
    assert_eq!(MaterialType::Metal.value(), 1);
    assert_eq!(MaterialType::Glass.value(), 2);
}
