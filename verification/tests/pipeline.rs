//! Pipeline-level behavior: shading, byte mapping, whole-frame rendering,
//! progressive accumulation, state transitions, and seeded determinism.

use raytracer::accum::{accumulate, RENDER_COUNT_CAP};
use raytracer::fixed::{fp_add, fp_mul, FP_MAX, FP_SCALE};
use raytracer::hit::HitResult;
use raytracer::pixel::{channel_byte, render, render_pixel};
use raytracer::render::ray_color;
use raytracer::ray::Ray;
use raytracer::rng::Rng;
use raytracer::scene::HittableList;
use raytracer::state::{
    get_adjusted_screen_dimensions, handle_reset, handle_resize, get_center_hit, Key, State,
};
use raytracer::trig::{cos_fp, sin_fp, PI_FP, TWO_PI_FP};
use raytracer::vec3::Vec3;

fn default_world() -> HittableList {
    HittableList { list: State::default().sphere_list }
}

#[test]
fn ray_color_at_depth_bound_is_pure_black() {
    let world = default_world();
    let mut rng = Rng::new(11);
    let rays = [
        Ray { origin: Vec3 { x: 0, y: 0, z: 0 }, direction: Vec3 { x: 0, y: 0, z: -FP_SCALE } },
        Ray { origin: Vec3 { x: 0, y: 0, z: 0 }, direction: Vec3 { x: FP_SCALE, y: 0, z: 0 } },
        Ray {
            origin: Vec3 { x: FP_SCALE, y: -FP_SCALE, z: 0 },
            direction: Vec3 { x: 0, y: FP_SCALE, z: FP_SCALE },
        },
    ];
    for ray in rays.iter() {
        let c = ray_color(&world, ray, 5, 5, &mut rng);
        assert_eq!(c, Vec3 { x: 0, y: 0, z: 0 });
        let c = ray_color(&world, ray, 9, 5, &mut rng);
        assert_eq!(c, Vec3 { x: 0, y: 0, z: 0 });
    }
}

#[test]
fn missed_rays_return_the_sky_gradient() {
    let empty = HittableList { list: vec![] };
    let mut rng = Rng::new(1);
    // Straight up: the gradient's sky-blue end, exactly.
    let up = Ray { origin: Vec3 { x: 0, y: 0, z: 0 }, direction: Vec3 { x: 0, y: FP_SCALE, z: 0 } };
    assert_eq!(
        ray_color(&empty, &up, 0, 4, &mut rng),
        Vec3 { x: 32768, y: 45875, z: 65536 }
    );
    // Straight down: the white end, exactly.
    let down = Ray {
        origin: Vec3 { x: 0, y: 0, z: 0 },
        direction: Vec3 { x: 0, y: -FP_SCALE, z: 0 },
    };
    assert_eq!(
        ray_color(&empty, &down, 0, 4, &mut rng),
        Vec3 { x: FP_SCALE, y: FP_SCALE, z: FP_SCALE }
    );
}

#[test]
fn byte_mapping_round_trip() {
    // A full linear channel maps to the largest byte; an empty one to zero.
    assert_eq!(channel_byte(FP_SCALE), 255);
    assert_eq!(channel_byte(0), 0);
    // Negative noise is clamped before the gamma square root.
    assert_eq!(channel_byte(-FP_SCALE), 0);
    // Gamma brightens mid values: 0.25 -> 0.5 -> floor(256 * 0.5).
    assert_eq!(channel_byte(FP_SCALE / 4), 128);
    // Out-of-range highlights saturate at the largest byte.
    assert_eq!(channel_byte(FP_MAX), 255);
}

#[test]
fn render_produces_an_opaque_buffer_of_the_right_size() {
    let world = default_world();
    let camera = State::default().camera();
    let mut rng = Rng::new(3);
    let buf = render(&world, &camera, 8, 6, 2, 3, &mut rng);
    assert_eq!(buf.len(), 8 * 6 * 4);
    for p in 0..(8 * 6) {
        assert_eq!(buf[4 * p + 3], 255);
    }
}

#[test]
fn rendering_is_deterministic_for_a_seed() {
    let world = default_world();
    let camera = State::default().camera();
    let mut rng1 = Rng::new(42);
    let mut rng2 = Rng::new(42);
    let a = render(&world, &camera, 6, 4, 2, 4, &mut rng1);
    let b = render(&world, &camera, 6, 4, 2, 4, &mut rng2);
    assert_eq!(a, b);
    assert_eq!(rng1.state, rng2.state);
    // A different seed draws different samples somewhere in the frame.
    let mut rng3 = Rng::new(43);
    let c = render(&world, &camera, 6, 4, 2, 4, &mut rng3);
    assert_ne!(a, c);
}

#[test]
fn render_pixel_matches_the_frame_buffer() {
    let world = default_world();
    let camera = State::default().camera();
    let mut rng = Rng::new(9);
    let buf = render(&world, &camera, 4, 4, 1, 3, &mut rng);
    let mut rng2 = Rng::new(9);
    let first = render_pixel(&world, &camera, 0, 0, 4, 4, 1, 3, &mut rng2);
    assert_eq!(&buf[0..4], &first[..]);
}

#[test]
fn accumulation_disabled_passes_frames_through() {
    let prev = vec![0u8, 100, 200, 255];
    let cur = vec![10u8, 20, 30, 255];
    let out = accumulate(&prev, &cur, 5, false);
    assert_eq!(out, cur);
}

#[test]
fn accumulation_blends_toward_the_running_mean() {
    let prev = vec![100u8, 0, 200, 255];
    let cur = vec![0u8, 100, 100, 255];
    // After one counted frame the blend is the midpoint, rounded down.
    let out = accumulate(&prev, &cur, 1, true);
    assert_eq!(out, vec![50u8, 50, 150, 255]);
    // Every blended byte stays between the two frames.
    let out2 = accumulate(&prev, &cur, 7, true);
    for i in 0..4 {
        let lo = prev[i].min(cur[i]);
        let hi = prev[i].max(cur[i]);
        assert!(lo <= out2[i] && out2[i] <= hi);
    }
}

#[test]
fn accumulating_a_static_frame_is_a_fixed_point() {
    // A static scene renders the same frame; blending it in changes
    // nothing, at any frame count: the image has stabilized.
    let frame = vec![3u8, 77, 130, 255, 9, 250, 0, 255];
    for n in [0u32, 1, 2, 30, RENDER_COUNT_CAP] {
        assert_eq!(accumulate(&frame, &frame, n, true), frame);
    }
}

#[test]
fn field_of_view_is_clamped_before_viewport_work() {
    let mut st = State::default();
    st.set_fov(0);
    assert_eq!(st.camera_field_of_view, 6554); // 0.1 rad floor
    st.set_fov(10 * FP_SCALE);
    assert_eq!(st.camera_field_of_view, 154415); // 0.75 pi ceiling
    st.set_fov(100000);
    assert_eq!(st.camera_field_of_view, 100000);
    // any field-of-view change restarts accumulation
    st.render_count = 17;
    st.set_fov(120000);
    assert_eq!(st.render_count, 0);
}

#[test]
fn wheel_scales_the_field_of_view() {
    let mut st = State::default();
    let before = st.camera_field_of_view;
    st.handle_wheel(FP_SCALE);
    let expected = fp_mul(before, fp_add(FP_SCALE, 655));
    assert_eq!(st.camera_field_of_view, expected);
    assert!(st.camera_field_of_view > before);
    st.handle_wheel(-FP_SCALE);
    assert!(st.camera_field_of_view < expected);
}

#[test]
fn keys_move_the_camera_and_restart_accumulation() {
    let mut st = State::default();
    st.render_count = 9;
    st.handle_keydown(Key::W);
    assert!(st.keydown_map.w);
    st.update_position(16 * FP_SCALE);
    // looking down -z by default, holding W walks forward
    assert!(st.camera_origin.z < 0);
    assert_eq!(st.render_count, 0);
    st.handle_keyup(Key::W);
    assert!(!st.keydown_map.w);
    // with no key held the state does not move
    let before_z = st.camera_origin.z;
    st.update_position(16 * FP_SCALE);
    assert_eq!(st.camera_origin.z, before_z);
}

#[test]
fn render_globals_count_frames_up_to_the_ceiling() {
    let mut st = State::default();
    assert_eq!(st.render_count, 0);
    st.update_render_globals();
    assert_eq!(st.render_count, 1);
    assert_eq!(st.even_odd_count, 1);
    assert_eq!(st.last_frame_weight, FP_SCALE / 2); // 1/2
    st.update_render_globals();
    assert_eq!(st.render_count, 2);
    assert_eq!(st.even_odd_count, 0);
    assert_eq!(st.last_frame_weight, (2 * FP_SCALE) / 3);
    st.render_count = RENDER_COUNT_CAP;
    st.update_render_globals();
    assert_eq!(st.render_count, RENDER_COUNT_CAP);
    // with averaging off the count pins to zero and each frame stands alone
    st.should_average = false;
    st.update_render_globals();
    assert_eq!(st.render_count, 0);
    assert_eq!(st.last_frame_weight, 0);
}

#[test]
fn pause_and_save_flags_drive_the_render_decision() {
    let mut st = State::default();
    st.is_paused = false;
    assert!(st.should_render_now());
    st.is_paused = true;
    st.render_count = 1;
    assert!(!st.should_render_now());
    // paused, but a save is pending: render once for it
    st.handle_save_image();
    assert!(st.should_render_now());
    assert!(st.take_save_request());
    assert!(!st.take_save_request());
    assert!(!st.should_render_now());
    // paused with nothing rendered yet: the very first frame still draws
    st.render_count = 0;
    assert!(st.should_render_now());
    // paused frames take the raised sample count
    st.samples_per_pixel = 4;
    assert_eq!(st.effective_samples_per_pixel(), 25);
    st.is_paused = false;
    assert_eq!(st.effective_samples_per_pixel(), 4);
}

#[test]
fn resize_is_debounced_and_recomputes_the_viewport() {
    let mut st = State::default();
    handle_resize(&mut st);
    assert!(st.should_update_to_match_window_size);
    assert!(!st.should_adopt_window_size(st.last_resize_time));
    let later = fp_add(st.last_resize_time, 40000 * FP_SCALE);
    assert!(st.should_adopt_window_size(later));
    st.update_render_dimensions(320, 180, later);
    assert_eq!(st.width, 320);
    assert_eq!(st.height, 180);
    assert!(!st.should_update_to_match_window_size);
    assert_eq!(st.render_count, 0);
}

#[test]
fn adjusted_screen_dimensions_cap_the_long_side() {
    assert_eq!(get_adjusted_screen_dimensions(1920, 1080), (1280, 720));
    assert_eq!(get_adjusted_screen_dimensions(800, 600), (800, 600));
    assert_eq!(get_adjusted_screen_dimensions(600, 800), (450, 600));
    assert_eq!(get_adjusted_screen_dimensions(2000, 3000), (853, 1280));
    let (w, h) = get_adjusted_screen_dimensions(5000, 5000);
    assert!(w <= 1280 && h <= 1280);
}

#[test]
fn reset_restores_the_default_scene() {
    let mut st = State::default();
    st.set_fov(120000);
    st.handle_keydown(Key::D);
    st.update_position(100 * FP_SCALE);
    handle_reset(&mut st);
    assert_eq!(st.camera_field_of_view, 102944);
    assert_eq!(st.sphere_list.len(), 4);
    assert_eq!(st.camera_origin, Vec3 { x: 0, y: 0, z: 0 });
    assert_eq!(st.render_count, 0);
}

#[test]
fn center_hit_selects_the_middle_sphere() {
    let st = State::default();
    match get_center_hit(&st) {
        HitResult::Hit { data } => assert_eq!(data.uuid, 0),
        HitResult::NoHit => panic!("the default view centers on a sphere"),
    }
}

#[test]
fn lens_rays_start_at_the_camera_when_the_aperture_is_closed() {
    let st = State::default();
    let mut rng = Rng::new(5);
    let r = st.get_ray(FP_SCALE / 2, FP_SCALE / 2, &mut rng);
    // lens radius zero: no perturbation at all
    assert_eq!(r.origin, st.camera_origin);
    // the center ray of the default camera points into the scene
    assert!(r.direction.z < 0);
}

#[test]
fn seeded_generator_is_reproducible_and_stays_in_range() {
    let mut a = Rng::new(123);
    let mut b = Rng::new(123);
    for _ in 0..100 {
        let x = a.next_unit();
        assert_eq!(x, b.next_unit());
        assert!(0 <= x && x < FP_SCALE);
    }
    // the zero seed is replaced, never a stuck all-zero state
    let z = Rng::new(0);
    assert_ne!(z.state, 0);
}

#[test]
fn trig_hits_the_cardinal_points_closely() {
    // Bhaskara's approximation is exact at 0, pi/2, and pi.
    assert_eq!(sin_fp(0), 0);
    assert_eq!(sin_fp(PI_FP), 0);
    assert_eq!(sin_fp(TWO_PI_FP), 0);
    let s_half_pi = sin_fp(PI_FP / 2);
    assert!((s_half_pi - FP_SCALE).abs() <= 700);
    let c_zero = cos_fp(0);
    assert!((c_zero - FP_SCALE).abs() <= 700);
    // sine is odd around pi: the second half of the circle is negative
    assert!(sin_fp(PI_FP + PI_FP / 2) < 0);
    // angles reduce modulo a full turn
    assert_eq!(sin_fp(TWO_PI_FP + 100), sin_fp(100));
}

#[test]
fn fps_window_is_bounded_and_averaged() {
    let mut st = State::default();
    for i in 0..15 {
        st.update_moving_fps_array((i * 16) * FP_SCALE, 16 * FP_SCALE);
    }
    assert_eq!(st.prev_fps.len(), 10);
    // past the debounce interval the indicator reports the average
    let r = st.update_fps_indicator(1000000 * FP_SCALE);
    match r {
        Some(fps) => {
            // every sample was 1000/16 = 62.5 frames per second
            assert_eq!(fps, (1000 * FP_SCALE) / 16);
        }
        None => panic!("expected a reading past the debounce interval"),
    }
    // immediately after, the debounce suppresses the next reading
    let r2 = st.update_fps_indicator(1000000 * FP_SCALE + 1);
    assert!(r2.is_none());
}

#[test]
fn samplers_stay_inside_their_supports() {
    let mut rng = Rng::new(2024);
    for _ in 0..50 {
        let p = Vec3::random_point_in_unit_sphere(&mut rng);
        // squared length stays within the unit ball, up to rounding slack
        assert!(p.length_squared() <= FP_SCALE + 2048);
        let u = Vec3::random_unit_vector(&mut rng);
        let lsq = u.length_squared();
        assert!(lsq > 0);
        assert!((lsq - FP_SCALE).abs() <= 4096);
        let d = Vec3::random_point_in_unit_disk(&mut rng);
        assert_eq!(d.z, 0);
        assert!(d.length_squared() <= FP_SCALE + 2048);
    }
    // ranged sampling respects its bounds
    let v = Vec3::random_with_range(-FP_SCALE, FP_SCALE, &mut rng);
    assert!(-FP_SCALE <= v.x && v.x <= FP_SCALE);
    assert!(-FP_SCALE <= v.y && v.y <= FP_SCALE);
    assert!(-FP_SCALE <= v.z && v.z <= FP_SCALE);
}

#[test]
fn progressive_frames_accumulate_and_count() {
    let mut st = State::default();
    st.update_render_dimensions(8, 6, 70000000);
    st.is_paused = false;
    st.samples_per_pixel = 1;
    st.max_depth = 2;
    let world = HittableList { list: st.sphere_list.clone() };
    let mut rng = Rng::new(77);
    let empty: Vec<u8> = Vec::new();
    // The first frame has no previous buffer to blend with.
    let first = raytracer::state::render_next_frame(&mut st, &world, &empty, &mut rng);
    assert_eq!(first.len(), 8 * 6 * 4);
    assert_eq!(st.render_count, 1);
    // The second frame blends: every byte stays between the two frames.
    let mut rng_probe = Rng::new(rng.state);
    let fresh = render(&world, &st.camera(), 8, 6, 1, 2, &mut rng_probe);
    let second = raytracer::state::render_next_frame(&mut st, &world, &first, &mut rng);
    assert_eq!(st.render_count, 2);
    for i in 0..second.len() {
        let lo = first[i].min(fresh[i]);
        let hi = first[i].max(fresh[i]);
        assert!(lo <= second[i] && second[i] <= hi);
    }
    // With averaging off the next frame stands alone and the count resets.
    st.should_average = false;
    let mut rng2 = Rng::new(rng.state);
    let alone = render(&world, &st.camera(), 8, 6, 1, 2, &mut rng2);
    let third = raytracer::state::render_next_frame(&mut st, &world, &second, &mut rng);
    assert_eq!(third, alone);
    assert_eq!(st.render_count, 0);
}

#[test]
fn default_camera_matches_its_layout() {
    let c = raytracer::camera::Camera::default();
    assert_eq!(c.viewport_height, 2 * FP_SCALE);
    assert_eq!(c.origin, Vec3 { x: 0, y: 0, z: 0 });
    // 16/9 * 2, under fixed-point rounding
    assert_eq!(c.viewport_width, 233016);
    let r = c.get_ray(FP_SCALE / 2, FP_SCALE / 2);
    assert_eq!(r.origin, Vec3 { x: 0, y: 0, z: 0 });
    // the centered ray looks straight down the negative z axis
    assert!(r.direction.x.abs() <= 2);
    assert!(r.direction.y.abs() <= 2);
    assert_eq!(r.direction.z, -FP_SCALE);
}
