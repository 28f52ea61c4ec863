//! The pixel and frame pipeline: multi-sample color accumulation per pixel,
//! gamma-correct byte mapping, and whole-frame rendering into a flat RGBA
//! buffer, row-major with the origin at the bottom left.

use vstd::prelude::*;

use crate::camera::Camera;
use crate::camera::camera_ray_s;
use crate::fixed::FP_MAX;
use crate::fixed::FP_SCALE;
use crate::fixed::Fp;
use crate::fixed::fp_add;
use crate::fixed::fp_add_s;
use crate::fixed::fp_div;
use crate::fixed::fp_div_s;
use crate::fixed::fp_sqrt;
use crate::fixed::fp_sqrt_s;
use crate::fixed::lemma_isqrt;
use crate::fixed::t_div;
use crate::render::black_s;
use crate::render::ray_color;
use crate::render::ray_color_s;
use crate::rng::Rng;
use crate::rng::rng_step_s;
use crate::rng::rng_unit_s;
use crate::scene::HittableList;
use crate::scene::spheres_wf;
use crate::sphere::Sphere;
use crate::vec3::Vec3;
use crate::vec3::v_add_s;

verus! {

/// The upper clamp of a gamma-corrected channel, just under one, so that a
/// full channel maps to the largest byte rather than overflowing past it.
pub const CHANNEL_CLAMP_FP: i64 = 65470;

/// A linear channel value mapped to a display byte: clamped to the unit
/// range, gamma-corrected by square root, clamped just under one, and
/// scaled to eight bits.
pub open spec fn channel_byte_s(x: int) -> int {
    let xc = if x < 0 {
        0
    } else if x > FP_MAX {
        FP_MAX as int
    } else {
        x
    };
    let g = fp_sqrt_s(xc);
    let c = if g > CHANNEL_CLAMP_FP {
        CHANNEL_CLAMP_FP as int
    } else {
        g
    };
    (c * 256) / (FP_SCALE as int)
}

/// A channel byte always fits in eight bits.
pub proof fn lemma_channel_byte_range(x: int)
    ensures
        0 <= channel_byte_s(x) <= 255,
{
    let xc = if x < 0 {
        0
    } else if x > FP_MAX {
        FP_MAX as int
    } else {
        x
    };
    lemma_isqrt((xc * FP_SCALE) as nat);
    let g = fp_sqrt_s(xc);
    let c = if g > CHANNEL_CLAMP_FP {
        CHANNEL_CLAMP_FP as int
    } else {
        g
    };
    vstd::arithmetic::div_mod::lemma_div_pos_is_pos(c * 256, FP_SCALE as int);
    vstd::arithmetic::div_mod::lemma_div_is_ordered(c * 256, 65470int * 256, FP_SCALE as int);
    assert((65470int * 256) / (FP_SCALE as int) == 255) by (nonlinear_arith);
}

/// The byte-mapping round trip the display path promises: a full linear
/// channel lands on the largest byte, an empty one on zero, and averaging
/// any number of full samples loses nothing on the way.
pub proof fn lemma_gamma_byte_roundtrip(n: int)
    requires
        1 <= n <= 0x4000_0000,
    ensures
        t_div(n * FP_SCALE, n) == FP_SCALE,
        channel_byte_s(FP_SCALE as int) == 255,
        channel_byte_s(0) == 0,
{
    vstd::arithmetic::div_mod::lemma_div_multiples_vanish(FP_SCALE as int, n);
    assert(n * FP_SCALE == n * (FP_SCALE as int));
    lemma_isqrt((FP_SCALE * FP_SCALE) as nat);
    let r = crate::fixed::isqrt_s((FP_SCALE * FP_SCALE) as nat);
    assert(r == 65536) by (nonlinear_arith)
        requires
            r * r <= 0x1_0000_0000,
            0x1_0000_0000 < (r + 1) * (r + 1),
    ;
    assert((65470int * 256) / (FP_SCALE as int) == 255) by (nonlinear_arith);
    assert(crate::fixed::isqrt_s(0) == 0);
}

/// A linear channel value mapped to a display byte.
pub fn channel_byte(x: Fp) -> (r: u8)
    ensures
        r as int == channel_byte_s(x as int),
{
    let xc: i64 = if x < 0 {
        0
    } else if x > FP_MAX {
        FP_MAX
    } else {
        x
    };
    let g = fp_sqrt(xc);
    let c: i64 = if g > CHANNEL_CLAMP_FP {
        CHANNEL_CLAMP_FP
    } else {
        g
    };
    proof {
        lemma_channel_byte_range(x as int);
        vstd::arithmetic::div_mod::lemma_div_pos_is_pos(c as int * 256, FP_SCALE as int);
    }
    ((c * 256) / FP_SCALE) as u8
}

/// The sum of the jittered samples of one pixel, and the generator state
/// they leave behind: each sample perturbs the pixel's normalized
/// image-plane coordinates within the pixel footprint and traces one
/// camera ray from depth zero.
pub open spec fn pixel_sum_s(
    l: Seq<Sphere>,
    cam: Camera,
    x: int,
    y: int,
    w: int,
    h: int,
    n: nat,
    max_depth: u32,
    s0: u64,
) -> (Vec3, u64)
    decreases n,
{
    if n == 0 {
        (black_s(), s0)
    } else {
        let pre = pixel_sum_s(l, cam, x, y, w, h, (n - 1) as nat, max_depth, s0);
        let s1 = rng_step_s(pre.1);
        let s2 = rng_step_s(s1);
        let u = fp_div_s(fp_add_s(x * FP_SCALE, rng_unit_s(s1)), (w - 1) * FP_SCALE);
        let v = fp_div_s(fp_add_s(y * FP_SCALE, rng_unit_s(s2)), (h - 1) * FP_SCALE);
        let rc = ray_color_s(l, camera_ray_s(cam, u, v), 0, max_depth, s2);
        (v_add_s(pre.0, rc.0), rc.1)
    }
}

/// The four bytes one pixel contributes to the frame buffer: the sample
/// average of each channel, gamma-corrected and byte-mapped, and a fully
/// opaque alpha.
pub open spec fn pixel_bytes_s(
    l: Seq<Sphere>,
    cam: Camera,
    x: int,
    y: int,
    w: int,
    h: int,
    spp: nat,
    max_depth: u32,
    s0: u64,
) -> (Seq<u8>, u64) {
    let ps = pixel_sum_s(l, cam, x, y, w, h, spp, max_depth, s0);
    let ax = t_div(ps.0.x as int, spp as int);
    let ay = t_div(ps.0.y as int, spp as int);
    let az = t_div(ps.0.z as int, spp as int);
    (
        seq![
            channel_byte_s(ax) as u8,
            channel_byte_s(ay) as u8,
            channel_byte_s(az) as u8,
            255u8,
        ],
        ps.1,
    )
}

/// The frame buffer's first `k` pixels, in row-major order from the bottom
/// left, and the generator state after them.
pub open spec fn render_pixels_s(
    l: Seq<Sphere>,
    cam: Camera,
    w: int,
    h: int,
    k: nat,
    spp: nat,
    max_depth: u32,
    s0: u64,
) -> (Seq<u8>, u64)
    decreases k,
{
    if k == 0 {
        (Seq::empty(), s0)
    } else {
        let pre = render_pixels_s(l, cam, w, h, (k - 1) as nat, spp, max_depth, s0);
        let x = ((k - 1) as int) % w;
        let y = ((k - 1) as int) / w;
        let px = pixel_bytes_s(l, cam, x, y, w, h, spp, max_depth, pre.1);
        (pre.0 + px.0, px.1)
    }
}

/// The whole frame: every pixel of a `w` by `h` image.
pub open spec fn render_s(
    l: Seq<Sphere>,
    cam: Camera,
    w: int,
    h: int,
    spp: nat,
    max_depth: u32,
    s0: u64,
) -> (Seq<u8>, u64) {
    render_pixels_s(l, cam, w, h, (w * h) as nat, spp, max_depth, s0)
}

/// One pixel's RGBA bytes: the average of `samples_per_pixel` jittered
/// camera rays, gamma-corrected and byte-mapped, with opaque alpha.
pub fn render_pixel(
    world: &HittableList,
    camera: &Camera,
    x: u32,
    y: u32,
    width: u32,
    height: u32,
    samples_per_pixel: u32,
    max_depth: u32,
    rng: &mut Rng,
) -> (px: [u8; 4])
    requires
        spheres_wf(world.list@),
        2 <= width <= 4096,
        2 <= height <= 4096,
        x < width,
        y < height,
        1 <= samples_per_pixel,
    ensures
        px@ == pixel_bytes_s(
            world.list@,
            *camera,
            x as int,
            y as int,
            width as int,
            height as int,
            samples_per_pixel as nat,
            max_depth,
            old(rng).state,
        ).0,
        final(rng).state == pixel_bytes_s(
            world.list@,
            *camera,
            x as int,
            y as int,
            width as int,
            height as int,
            samples_per_pixel as nat,
            max_depth,
            old(rng).state,
        ).1,
{
    let ghost s0 = rng.state;
    let x_fp: i64 = (x as i64) * FP_SCALE;
    let y_fp: i64 = (y as i64) * FP_SCALE;
    let wm1_fp: i64 = ((width - 1) as i64) * FP_SCALE;
    let hm1_fp: i64 = ((height - 1) as i64) * FP_SCALE;
    let mut sum = Vec3 { x: 0, y: 0, z: 0 };
    let mut s: u32 = 0;
    while s < samples_per_pixel
        invariant
            0 <= s <= samples_per_pixel,
            spheres_wf(world.list@),
            2 <= width <= 4096,
            2 <= height <= 4096,
            x < width,
            y < height,
            x_fp == (x as int) * FP_SCALE,
            y_fp == (y as int) * FP_SCALE,
            wm1_fp == ((width - 1) as int) * FP_SCALE,
            hm1_fp == ((height - 1) as int) * FP_SCALE,
            crate::vec3::v_in_range(sum),
            sum == pixel_sum_s(
                world.list@,
                *camera,
                x as int,
                y as int,
                width as int,
                height as int,
                s as nat,
                max_depth,
                s0,
            ).0,
            rng.state == pixel_sum_s(
                world.list@,
                *camera,
                x as int,
                y as int,
                width as int,
                height as int,
                s as nat,
                max_depth,
                s0,
            ).1,
        decreases samples_per_pixel - s,
    {
        let ju = rng.next_unit();
        let jv = rng.next_unit();
        let u = fp_div(fp_add(x_fp, ju), wm1_fp);
        let v = fp_div(fp_add(y_fp, jv), hm1_fp);
        let ray = camera.get_ray(u, v);
        let c = ray_color(world, &ray, 0, max_depth, rng);
        sum = sum.add(&c);
        s += 1;
    }
    proof {
        crate::fixed::lemma_t_div_shrinks(sum.x as int, samples_per_pixel as int);
        crate::fixed::lemma_t_div_shrinks(sum.y as int, samples_per_pixel as int);
        crate::fixed::lemma_t_div_shrinks(sum.z as int, samples_per_pixel as int);
    }
    let ax = crate::fixed::div_trunc(sum.x as i128, samples_per_pixel as i128) as i64;
    let ay = crate::fixed::div_trunc(sum.y as i128, samples_per_pixel as i128) as i64;
    let az = crate::fixed::div_trunc(sum.z as i128, samples_per_pixel as i128) as i64;
    let px: [u8; 4] = [channel_byte(ax), channel_byte(ay), channel_byte(az), 255u8];
    proof {
        assert(px@ =~= pixel_bytes_s(
            world.list@,
            *camera,
            x as int,
            y as int,
            width as int,
            height as int,
            samples_per_pixel as nat,
            max_depth,
            s0,
        ).0);
    }
    px
}

/// A full frame, rendered pixel by pixel into a flat RGBA buffer: four
/// bytes per pixel, rows from the bottom of the image upward.
#[verifier::rlimit(80)]
pub fn render(
    world: &HittableList,
    camera: &Camera,
    width: u32,
    height: u32,
    samples_per_pixel: u32,
    max_depth: u32,
    rng: &mut Rng,
) -> (buf: Vec<u8>)
    requires
        spheres_wf(world.list@),
        2 <= width <= 4096,
        2 <= height <= 4096,
        1 <= samples_per_pixel,
    ensures
        buf@ == render_s(
            world.list@,
            *camera,
            width as int,
            height as int,
            samples_per_pixel as nat,
            max_depth,
            old(rng).state,
        ).0,
        final(rng).state == render_s(
            world.list@,
            *camera,
            width as int,
            height as int,
            samples_per_pixel as nat,
            max_depth,
            old(rng).state,
        ).1,
        buf@.len() == width * height * 4,
{
    let ghost s0 = rng.state;
    proof {
        crate::fixed::lemma_mul_bound(width as int, height as int, 4096, 4096);
    }
    let total: usize = (width as usize) * (height as usize);
    let mut buf: Vec<u8> = Vec::new();
    let mut k: usize = 0;
    while k < total
        invariant
            0 <= k <= total,
            total == (width as int) * (height as int),
            total <= 4096 * 4096,
            spheres_wf(world.list@),
            2 <= width <= 4096,
            2 <= height <= 4096,
            1 <= samples_per_pixel,
            buf@ == render_pixels_s(
                world.list@,
                *camera,
                width as int,
                height as int,
                k as nat,
                samples_per_pixel as nat,
                max_depth,
                s0,
            ).0,
            rng.state == render_pixels_s(
                world.list@,
                *camera,
                width as int,
                height as int,
                k as nat,
                samples_per_pixel as nat,
                max_depth,
                s0,
            ).1,
            buf@.len() == 4 * k,
        decreases total - k,
    {
        let x = (k % (width as usize)) as u32;
        let y = (k / (width as usize)) as u32;
        proof {
            vstd::arithmetic::div_mod::lemma_mod_division_less_than_divisor(k as int,
                width as int);
            vstd::arithmetic::div_mod::lemma_div_pos_is_pos(k as int, width as int);
            assert((k as int) / (width as int) < height as int) by (nonlinear_arith)
                requires
                    0 <= k as int,
                    (k as int) < (width as int) * (height as int),
                    width as int >= 2,
            ;
        }
        let px = render_pixel(world, camera, x, y, width, height, samples_per_pixel, max_depth,
            rng);
        buf.push(px[0]);
        buf.push(px[1]);
        buf.push(px[2]);
        buf.push(px[3]);
        k += 1;
    }
    proof {
        assert(buf@ =~= render_s(
            world.list@,
            *camera,
            width as int,
            height as int,
            samples_per_pixel as nat,
            max_depth,
            s0,
        ).0);
    }
    buf
}

} // verus!
