//! The interactive render state: camera parameters, their derived viewport
//! and basis vectors, accumulation bookkeeping, input flags, and the scene.
//!
//! The derived fields are a pure function of the parameters: every change
//! to position, orientation, field of view, or dimensions recomputes them
//! before the next ray is generated, and resets accumulation to frame zero.

use vstd::prelude::*;

use crate::accum::RENDER_COUNT_CAP;
use crate::fixed::FP_SCALE;
use crate::fixed::Fp;
use crate::fixed::fp_add;
use crate::fixed::fp_add_s;
use crate::fixed::fp_div;
use crate::fixed::fp_div_s;
use crate::fixed::fp_mul;
use crate::fixed::fp_mul_s;
use crate::fixed::fp_neg;
use crate::fixed::fp_neg_s;
use crate::fixed::fp_sub;
use crate::fixed::fp_sub_s;
use crate::fixed::t_div;
use crate::hit::HitResult;
use crate::material::Material;
use crate::material::MaterialType;
use crate::ray::Ray;
use crate::render::FP_HALF;
use crate::scene::hit_spheres;
use crate::scene::scene_hit_s;
use crate::scene::spheres_wf;
use crate::sphere::Sphere;
use crate::trig::cos_fp;
use crate::trig::cos_s;
use crate::trig::sin_fp;
use crate::trig::sin_s;
use crate::trig::tan_fp;
use crate::trig::tan_s;
use crate::vec3::Vec3;
use crate::vec3::lemma_len_sq_nonneg;
use crate::vec3::v_add_s;
use crate::vec3::v_cross_s;
use crate::vec3::v_div_s;
use crate::vec3::v_len_s;
use crate::vec3::v_len_sq_s;
use crate::vec3::v_neg_s;
use crate::vec3::v_scale_s;
use crate::vec3::v_sub_s;

verus! {

/// The smallest permitted field of view, a tenth of a radian.
pub const FOV_MIN_FP: i64 = 6554;

/// The largest permitted field of view, three quarters of pi radians.
pub const FOV_MAX_FP: i64 = 154415;

/// World units moved per millisecond of held key.
pub const MOVE_SPEED_FP: i64 = 328;

/// The factor a single wheel notch applies to the field of view.
pub const WHEEL_STEP_FP: i64 = 655;

/// How many recent frame rates the moving average keeps.
pub const FPS_WINDOW: usize = 10;

/// Milliseconds between updates of the displayed frame rate.
pub const FPS_UPDATE_INTERVAL_FP: i64 = 16384000;

/// Milliseconds a resize must stay quiet before dimensions are adopted.
pub const RESIZE_DEBOUNCE_FP: i64 = 32768000;

/// Which movement keys are currently held.
#[derive(Clone, Copy, Debug, PartialEq, Eq, Structural)]
pub struct KeydownMap {
    pub w: bool,
    pub a: bool,
    pub s: bool,
    pub d: bool,
    pub space: bool,
    pub shift: bool,
}

/// A key the host can report, already decoded from its event.
#[derive(Clone, Copy, Debug, PartialEq, Eq, Structural)]
pub enum Key {
    W,
    A,
    S,
    D,
    Space,
    Shift,
    Other,
}

/// The whole mutable state of an interactive render.
pub struct State {
    pub width: u32,
    pub height: u32,
    pub aspect_ratio: Fp,
    pub viewport_height: Fp,
    pub viewport_width: Fp,
    pub focal_length: Fp,
    pub lens_radius: Fp,
    pub camera_origin: Vec3,
    pub horizontal: Vec3,
    pub vertical: Vec3,
    pub lower_left_corner: Vec3,
    pub u: Vec3,
    pub v: Vec3,
    pub w: Vec3,
    pub camera_field_of_view: Fp,
    pub yaw: Fp,
    pub pitch: Fp,
    pub look_sensitivity: Fp,
    pub samples_per_pixel: u32,
    pub max_depth: u32,
    pub render_count: u32,
    pub even_odd_count: u32,
    pub should_average: bool,
    pub last_frame_weight: Fp,
    pub should_render: bool,
    pub is_paused: bool,
    pub should_save: bool,
    pub should_update_to_match_window_size: bool,
    pub last_resize_time: Fp,
    pub prev_now: Fp,
    pub prev_fps_update_time: Fp,
    pub prev_fps: Vec<Fp>,
    pub keydown_map: KeydownMap,
    pub sphere_list: Vec<Sphere>,
}

/// A field of view forced into the permitted range, before any viewport
/// work happens with it.
pub open spec fn fov_clamp_s(fov: int) -> int {
    if fov < FOV_MIN_FP {
        FOV_MIN_FP as int
    } else if fov > FOV_MAX_FP {
        FOV_MAX_FP as int
    } else {
        fov
    }
}

/// The state with its derived camera fields recomputed from the current
/// parameters, and accumulation reset to frame zero.
pub open spec fn state_recomputed_s(s: State) -> State {
    let half_tan = tan_s(fp_mul_s(s.camera_field_of_view as int, FP_HALF as int));
    let vh = fp_mul_s(2 * FP_SCALE, half_tan);
    let vw = fp_mul_s(s.aspect_ratio as int, vh);
    let sy = sin_s(s.yaw as int);
    let cy = cos_s(s.yaw as int);
    let sp = sin_s(s.pitch as int);
    let cp = cos_s(s.pitch as int);
    let forward = Vec3 {
        x: fp_mul_s(sy, cp) as i64,
        y: sp as i64,
        z: fp_neg_s(fp_mul_s(cy, cp)) as i64,
    };
    let wv = v_neg_s(forward);
    let uc = v_cross_s(Vec3 { x: 0, y: FP_SCALE, z: 0 }, wv);
    let uv = if v_len_sq_s(uc) == 0 {
        Vec3 { x: FP_SCALE, y: 0, z: 0 }
    } else {
        v_div_s(uc, v_len_s(uc))
    };
    let vv = v_cross_s(wv, uv);
    let horiz = v_scale_s(uv, fp_mul_s(s.focal_length as int, vw));
    let vert = v_scale_s(vv, fp_mul_s(s.focal_length as int, vh));
    let llc = v_sub_s(
        v_sub_s(
            v_sub_s(s.camera_origin, v_div_s(horiz, 2 * FP_SCALE)),
            v_div_s(vert, 2 * FP_SCALE),
        ),
        v_scale_s(wv, s.focal_length as int),
    );
    State {
        viewport_height: vh as i64,
        viewport_width: vw as i64,
        u: uv,
        v: vv,
        w: wv,
        horizontal: horiz,
        vertical: vert,
        lower_left_corner: llc,
        render_count: 0,
        ..s
    }
}

impl State {
    /// Recompute the derived viewport extents and basis vectors from the
    /// current parameters. Stale basis vectors are a correctness bug, so
    /// every parameter change must pass through here before the next ray;
    /// the change also restarts accumulation.
    pub fn recompute_viewport(&mut self)
        ensures
            *final(self) == state_recomputed_s(*old(self)),
    {
        let half_tan = tan_fp(fp_mul(self.camera_field_of_view, FP_HALF));
        let vh = fp_mul(2 * FP_SCALE, half_tan);
        let vw = fp_mul(self.aspect_ratio, vh);
        let sy = sin_fp(self.yaw);
        let cy = cos_fp(self.yaw);
        let sp = sin_fp(self.pitch);
        let cp = cos_fp(self.pitch);
        let forward = Vec3 { x: fp_mul(sy, cp), y: sp, z: fp_neg(fp_mul(cy, cp)) };
        let wv = forward.neg();
        let up = Vec3 { x: 0, y: FP_SCALE, z: 0 };
        let uc = Vec3::cross(&up, &wv);
        proof {
            lemma_len_sq_nonneg(uc);
        }
        let uv = if uc.length_squared() == 0 {
            Vec3 { x: FP_SCALE, y: 0, z: 0 }
        } else {
            uc.normalize()
        };
        let vv = Vec3::cross(&wv, &uv);
        let horiz = uv.scale(fp_mul(self.focal_length, vw));
        let vert = vv.scale(fp_mul(self.focal_length, vh));
        let llc = self.camera_origin.sub(&horiz.div(2 * FP_SCALE)).sub(&vert.div(2 * FP_SCALE))
            .sub(&wv.scale(self.focal_length));
        self.viewport_height = vh;
        self.viewport_width = vw;
        self.u = uv;
        self.v = vv;
        self.w = wv;
        self.horizontal = horiz;
        self.vertical = vert;
        self.lower_left_corner = llc;
        self.render_count = 0;
    }

    /// Set the field of view, clamped into the permitted range before the
    /// viewport is recomputed from it.
    pub fn set_fov(&mut self, fov: Fp)
        ensures
            *final(self) == state_recomputed_s(
                State { camera_field_of_view: fov_clamp_s(fov as int) as i64, ..*old(self) },
            ),
            final(self).camera_field_of_view == fov_clamp_s(fov as int),
    {
        let clamped: i64 = if fov < FOV_MIN_FP {
            FOV_MIN_FP
        } else if fov > FOV_MAX_FP {
            FOV_MAX_FP
        } else {
            fov
        };
        self.camera_field_of_view = clamped;
        self.recompute_viewport();
    }

    /// Set the camera's orientation and recompute the basis from it.
    pub fn set_camera_angles(&mut self, yaw: Fp, pitch: Fp)
        ensures
            *final(self) == state_recomputed_s(
                State { yaw, pitch, ..*old(self) },
            ),
    {
        self.yaw = yaw;
        self.pitch = pitch;
        self.recompute_viewport();
    }
}

/// Whether any movement key is held.
pub open spec fn any_key_s(k: KeydownMap) -> bool {
    k.w || k.a || k.s || k.d || k.space || k.shift
}

/// The world-space displacement one frame of held keys produces.
pub open spec fn move_delta_s(s: State, dt: int) -> Vec3 {
    let step = fp_mul_s(MOVE_SPEED_FP as int, dt);
    let zero = Vec3 { x: 0, y: 0, z: 0 };
    let up = Vec3 { x: 0, y: FP_SCALE, z: 0 };
    let forward = v_neg_s(s.w);
    let d1 = if s.keydown_map.w {
        v_add_s(zero, v_scale_s(forward, step))
    } else {
        zero
    };
    let d2 = if s.keydown_map.s {
        v_sub_s(d1, v_scale_s(forward, step))
    } else {
        d1
    };
    let d3 = if s.keydown_map.a {
        v_sub_s(d2, v_scale_s(s.u, step))
    } else {
        d2
    };
    let d4 = if s.keydown_map.d {
        v_add_s(d3, v_scale_s(s.u, step))
    } else {
        d3
    };
    let d5 = if s.keydown_map.space {
        v_add_s(d4, v_scale_s(up, step))
    } else {
        d4
    };
    if s.keydown_map.shift {
        v_sub_s(d5, v_scale_s(up, step))
    } else {
        d5
    }
}

/// The new field of view one wheel notch asks for: the current value
/// scaled a hundredth up or down by the wheel's direction.
pub open spec fn wheel_fov_s(fov: int, delta_y: int) -> int {
    let adjustment = if delta_y >= 0 {
        WHEEL_STEP_FP as int
    } else {
        -WHEEL_STEP_FP as int
    };
    fp_mul_s(fov, fp_add_s(FP_SCALE as int, adjustment))
}

/// The sum of a window of frame rates.
pub open spec fn fps_sum_s(q: Seq<Fp>) -> int
    decreases q.len(),
{
    if q.len() == 0 {
        0
    } else {
        fp_add_s(fps_sum_s(q.drop_last()), q.last() as int)
    }
}

/// The frame rate one frame interval witnesses.
pub open spec fn fps_of_dt_s(dt: int) -> int {
    if dt <= 0 {
        0
    } else {
        fp_div_s(1000 * FP_SCALE, dt)
    }
}

impl State {
    /// Move the camera along its basis from the held keys, and recompute
    /// the viewport when it moved; accumulation then restarts.
    pub fn update_position(&mut self, dt: Fp)
        ensures
            *final(self) == if any_key_s(old(self).keydown_map) {
                state_recomputed_s(
                    State {
                        camera_origin: v_add_s(
                            old(self).camera_origin,
                            move_delta_s(*old(self), dt as int),
                        ),
                        ..*old(self)
                    },
                )
            } else {
                *old(self)
            },
    {
        let k = self.keydown_map;
        if k.w || k.a || k.s || k.d || k.space || k.shift {
            let step = fp_mul(MOVE_SPEED_FP, dt);
            let zero = Vec3 { x: 0, y: 0, z: 0 };
            let up = Vec3 { x: 0, y: FP_SCALE, z: 0 };
            let forward = self.w.neg();
            let mut delta = zero;
            if k.w {
                delta = delta.add(&forward.scale(step));
            }
            if k.s {
                delta = delta.sub(&forward.scale(step));
            }
            if k.a {
                delta = delta.sub(&self.u.scale(step));
            }
            if k.d {
                delta = delta.add(&self.u.scale(step));
            }
            if k.space {
                delta = delta.add(&up.scale(step));
            }
            if k.shift {
                delta = delta.sub(&up.scale(step));
            }
            self.camera_origin = self.camera_origin.add(&delta);
            self.recompute_viewport();
        }
    }

    /// Scale the field of view one wheel notch up or down, clamped as any
    /// field-of-view change is.
    pub fn handle_wheel(&mut self, delta_y: Fp)
        ensures
            *final(self) == state_recomputed_s(
                State {
                    camera_field_of_view: fov_clamp_s(
                        wheel_fov_s(old(self).camera_field_of_view as int, delta_y as int),
                    ) as i64,
                    ..*old(self)
                },
            ),
    {
        let adjustment: i64 = if delta_y >= 0 {
            WHEEL_STEP_FP
        } else {
            -WHEEL_STEP_FP
        };
        let new_value = fp_mul(self.camera_field_of_view, fp_add(FP_SCALE, adjustment));
        self.set_fov(new_value);
    }

    /// Turn the camera from a relative mouse movement: the turn slows as
    /// the view zooms in.
    pub fn handle_mouse_move(&mut self, movement_x: i32, movement_y: i32)
        ensures
            *final(self) == state_recomputed_s(
                State {
                    yaw: fp_add_s(
                        old(self).yaw as int,
                        fp_mul_s(
                            fp_mul_s(movement_x as int * FP_SCALE, old(self).look_sensitivity as int),
                            old(self).camera_field_of_view as int,
                        ),
                    ) as i64,
                    pitch: fp_add_s(
                        old(self).pitch as int,
                        fp_mul_s(
                            fp_mul_s(
                                -movement_y as int * FP_SCALE,
                                old(self).look_sensitivity as int,
                            ),
                            old(self).camera_field_of_view as int,
                        ),
                    ) as i64,
                    ..*old(self)
                },
            ),
    {
        let dx = fp_mul(
            fp_mul((movement_x as i64) * FP_SCALE, self.look_sensitivity),
            self.camera_field_of_view,
        );
        let dy = fp_mul(
            fp_mul(-(movement_y as i64) * FP_SCALE, self.look_sensitivity),
            self.camera_field_of_view,
        );
        let yaw = fp_add(self.yaw, dx);
        let pitch = fp_add(self.pitch, dy);
        self.set_camera_angles(yaw, pitch);
    }

    /// Record that a key went down.
    pub fn handle_keydown(&mut self, key: Key)
        ensures
            *final(self) == (State {
                keydown_map: updated_keys_s(old(self).keydown_map, key, true),
                ..*old(self)
            }),
    {
        self.set_key(key, true);
    }

    /// Record that a key came up.
    pub fn handle_keyup(&mut self, key: Key)
        ensures
            *final(self) == (State {
                keydown_map: updated_keys_s(old(self).keydown_map, key, false),
                ..*old(self)
            }),
    {
        self.set_key(key, false);
    }

    /// Record one key's state.
    fn set_key(&mut self, key: Key, down: bool)
        ensures
            *final(self) == (State {
                keydown_map: updated_keys_s(old(self).keydown_map, key, down),
                ..*old(self)
            }),
    {
        match key {
            Key::W => self.keydown_map.w = down,
            Key::A => self.keydown_map.a = down,
            Key::S => self.keydown_map.s = down,
            Key::D => self.keydown_map.d = down,
            Key::Space => self.keydown_map.space = down,
            Key::Shift => self.keydown_map.shift = down,
            Key::Other => {},
        }
    }

    /// Ask for a render and a save of the frame it produces: saving waits
    /// until just after rendering, so the saved image is never blank.
    pub fn handle_save_image(&mut self)
        ensures
            *final(self) == (State { should_render: true, should_save: true, ..*old(self) }),
    {
        self.should_render = true;
        self.should_save = true;
    }

    /// Consume a pending save request, if one is set: the frame just
    /// rendered should be persisted exactly once.
    pub fn take_save_request(&mut self) -> (r: bool)
        ensures
            r == old(self).should_save,
            *final(self) == (State { should_save: false, ..*old(self) }),
    {
        let r = self.should_save;
        self.should_save = false;
        r
    }

    /// Whether this frame should be rendered at all: never while paused,
    /// except to satisfy a save request or to draw the very first frame.
    pub fn should_render_now(&self) -> (r: bool)
        ensures
            r == ((self.should_render && !self.is_paused) || (self.should_render
                && self.is_paused && self.should_save) || (self.should_render && self.is_paused
                && !self.should_save && self.render_count == 0)),
    {
        (self.should_render && !self.is_paused) || (self.should_render && self.is_paused
            && self.should_save) || (self.should_render && self.is_paused && !self.should_save
            && self.render_count == 0)
    }

    /// The sample count to render with now: raised while paused, when the
    /// extra work cannot hurt responsiveness.
    pub fn effective_samples_per_pixel(&self) -> (r: u32)
        ensures
            r == if self.is_paused && self.samples_per_pixel < 25 {
                25u32
            } else {
                self.samples_per_pixel
            },
    {
        if self.is_paused && self.samples_per_pixel < 25 {
            25
        } else {
            self.samples_per_pixel
        }
    }

    /// Whether a requested resize has stayed quiet long enough to adopt.
    pub fn should_adopt_window_size(&self, now: Fp) -> (r: bool)
        ensures
            r == (self.should_update_to_match_window_size && fp_sub_s(
                now as int,
                self.last_resize_time as int,
            ) > RESIZE_DEBOUNCE_FP),
    {
        self.should_update_to_match_window_size && fp_sub(now, self.last_resize_time)
            > RESIZE_DEBOUNCE_FP
    }

    /// Adopt new render dimensions: the aspect ratio and viewport follow,
    /// and accumulation restarts.
    pub fn update_render_dimensions(&mut self, width: u32, height: u32, now: Fp)
        requires
            2 <= width <= 4096,
            2 <= height <= 4096,
        ensures
            *final(self) == state_recomputed_s(
                State {
                    width,
                    height,
                    aspect_ratio: fp_div_s(
                        width as int * FP_SCALE,
                        height as int * FP_SCALE,
                    ) as i64,
                    should_update_to_match_window_size: false,
                    last_resize_time: now,
                    ..*old(self)
                },
            ),
    {
        self.width = width;
        self.height = height;
        self.aspect_ratio = fp_div((width as i64) * FP_SCALE, (height as i64) * FP_SCALE);
        self.should_update_to_match_window_size = false;
        self.last_resize_time = now;
        self.recompute_viewport();
    }

    /// Count the frame just rendered: the counted-frame total rises to its
    /// ceiling while averaging, the source and destination buffers swap
    /// parity, and the previous frame's blend weight follows the count.
    pub fn update_render_globals(&mut self)
        ensures
            *final(self) == (State {
                render_count: if old(self).should_average {
                    if old(self).render_count >= RENDER_COUNT_CAP {
                        RENDER_COUNT_CAP
                    } else {
                        (old(self).render_count + 1) as u32
                    }
                } else {
                    0u32
                },
                even_odd_count: if old(self).even_odd_count == 0 {
                    1u32
                } else {
                    0u32
                },
                last_frame_weight: t_div(
                    final(self).render_count as int * FP_SCALE,
                    final(self).render_count as int + 1,
                ) as i64,
                ..*old(self)
            }),
    {
        self.render_count = if self.should_average {
            if self.render_count >= RENDER_COUNT_CAP {
                RENDER_COUNT_CAP
            } else {
                self.render_count + 1
            }
        } else {
            0
        };
        self.even_odd_count = if self.even_odd_count == 0 {
            1
        } else {
            0
        };
        proof {
            crate::fixed::lemma_t_div_shrinks(
                self.render_count as int * FP_SCALE,
                self.render_count as int + 1,
            );
            crate::fixed::lemma_t_div_nonneg(
                self.render_count as int * FP_SCALE,
                self.render_count as int + 1,
            );
        }
        self.last_frame_weight = crate::fixed::div_trunc(
            (self.render_count as i128) * (FP_SCALE as i128),
            self.render_count as i128 + 1,
        ) as i64;
    }

    /// Record the frame rate this frame interval witnesses in the moving
    /// window, and remember the frame's timestamp.
    pub fn update_moving_fps_array(&mut self, now: Fp, dt: Fp)
        ensures
            final(self).prev_fps@ == (if old(self).prev_fps@.len() >= FPS_WINDOW {
                old(self).prev_fps@.subrange(1, old(self).prev_fps@.len() as int)
            } else {
                old(self).prev_fps@
            }).push(fps_of_dt_s(dt as int) as i64),
            *final(self) == (State {
                prev_fps: final(self).prev_fps,
                prev_now: now,
                ..*old(self)
            }),
    {
        let fps: i64 = if dt <= 0 {
            0
        } else {
            fp_div(1000 * FP_SCALE, dt)
        };
        if self.prev_fps.len() >= FPS_WINDOW {
            self.prev_fps.remove(0);
        }
        self.prev_fps.push(fps);
        self.prev_now = now;
    }

    /// The average frame rate to display, if enough time has passed since
    /// it last changed; the debounce keeps the readout legible.
    pub fn update_fps_indicator(&mut self, now: Fp) -> (r: Option<Fp>)
        ensures
            fp_sub_s(now as int, old(self).prev_fps_update_time as int) > FPS_UPDATE_INTERVAL_FP
                ==> (r == Some(
                (if old(self).prev_fps@.len() == 0 {
                    0int
                } else {
                    t_div(fps_sum_s(old(self).prev_fps@), old(self).prev_fps@.len() as int)
                }) as i64,
            ) && *final(self) == (State { prev_fps_update_time: now, ..*old(self) })),
            fp_sub_s(now as int, old(self).prev_fps_update_time as int) <= FPS_UPDATE_INTERVAL_FP
                ==> (r is None && *final(self) == *old(self)),
    {
        if fp_sub(now, self.prev_fps_update_time) > FPS_UPDATE_INTERVAL_FP {
            self.prev_fps_update_time = now;
            let n = self.prev_fps.len();
            if n == 0 {
                return Some(0);
            }
            let ghost q = self.prev_fps@;
            let mut sum: i64 = 0;
            let mut i: usize = 0;
            while i < n
                invariant
                    0 <= i <= n,
                    n == q.len(),
                    q == self.prev_fps@,
                    sum as int == fps_sum_s(q.subrange(0, i as int)),
                decreases n - i,
            {
                proof {
                    assert(q.subrange(0, i as int + 1).drop_last() =~= q.subrange(0, i as int));
                    assert(q.subrange(0, i as int + 1).last() == q[i as int]);
                }
                sum = fp_add(sum, self.prev_fps[i]);
                i += 1;
            }
            proof {
                assert(q.subrange(0, n as int) =~= q);
                crate::fixed::lemma_t_div_shrinks(sum as int, n as int);
            }
            Some(crate::fixed::div_trunc(sum as i128, n as i128) as i64)
        } else {
            None
        }
    }
}

/// The ray the interactive camera casts through normalized image-plane
/// coordinates, with its origin perturbed within the lens disk for depth
/// of field.
pub open spec fn state_ray_s(st: State, sc: int, tc: int, s0: u64) -> Ray {
    let rd = v_scale_s(crate::vec3::disk_sample_s(s0), st.lens_radius as int);
    let offset = v_add_s(v_scale_s(st.u, rd.x as int), v_scale_s(st.v, rd.y as int));
    Ray {
        origin: v_add_s(st.camera_origin, offset),
        direction: v_sub_s(
            v_sub_s(
                v_add_s(
                    v_add_s(st.lower_left_corner, v_scale_s(st.horizontal, sc)),
                    v_scale_s(st.vertical, tc),
                ),
                st.camera_origin,
            ),
            offset,
        ),
    }
}

impl State {
    /// The ray through normalized viewport coordinates (s, t), from a point
    /// within the camera's lens disk; a zero lens radius degenerates to the
    /// camera's exact position.
    pub fn get_ray(&self, s_coord: Fp, t_coord: Fp, rng: &mut crate::rng::Rng) -> (r: Ray)
        ensures
            r == state_ray_s(*self, s_coord as int, t_coord as int, old(rng).state),
            final(rng).state == crate::rng::rng_step_s(crate::rng::rng_step_s(old(rng).state)),
    {
        let rd = Vec3::random_point_in_unit_disk(rng).scale(self.lens_radius);
        let offset = self.u.scale(rd.x).add(&self.v.scale(rd.y));
        Ray {
            origin: self.camera_origin.add(&offset),
            direction: self.lower_left_corner.add(&self.horizontal.scale(s_coord)).add(
                &self.vertical.scale(t_coord),
            ).sub(&self.camera_origin).sub(&offset),
        }
    }

    /// The fixed camera this state's parameters describe, for the frame
    /// pipeline.
    pub fn camera(&self) -> (c: crate::camera::Camera)
        ensures
            c == (crate::camera::Camera {
                aspect_ratio: self.aspect_ratio,
                viewport_height: self.viewport_height,
                viewport_width: self.viewport_width,
                focal_length: self.focal_length,
                origin: self.camera_origin,
                viewport_horizontal_vec: self.horizontal,
                viewport_vertical_vec: self.vertical,
                lower_left_corner: self.lower_left_corner,
            }),
    {
        crate::camera::Camera {
            aspect_ratio: self.aspect_ratio,
            viewport_height: self.viewport_height,
            viewport_width: self.viewport_width,
            focal_length: self.focal_length,
            origin: self.camera_origin,
            viewport_horizontal_vec: self.horizontal,
            viewport_vertical_vec: self.vertical,
            lower_left_corner: self.lower_left_corner,
        }
    }
}

/// Render the next frame of a progressive session: trace every pixel with
/// the state's camera, blend the result into the previous displayed buffer
/// under the accumulation policy, and count the frame. The returned buffer
/// is what the host should display; a previous buffer of the wrong size
/// (as on the first frame, or right after a resize) is discarded rather
/// than blended.
pub fn render_next_frame(
    state: &mut State,
    world: &crate::scene::HittableList,
    prev: &Vec<u8>,
    rng: &mut crate::rng::Rng,
) -> (out: Vec<u8>)
    requires
        spheres_wf(world.list@),
        2 <= old(state).width <= 4096,
        2 <= old(state).height <= 4096,
        1 <= old(state).samples_per_pixel,
    ensures
        ({
            let fresh = crate::pixel::render_s(
                world.list@,
                old(state).camera_spec(),
                old(state).width as int,
                old(state).height as int,
                old(state).samples_per_pixel as nat,
                old(state).max_depth,
                old(rng).state,
            ).0;
            &&& out@ == if prev@.len() == fresh.len() {
                crate::accum::accumulate_s(
                    prev@,
                    fresh,
                    old(state).render_count as int,
                    old(state).should_average,
                )
            } else {
                fresh
            }
            &&& !old(state).should_average ==> out@ == fresh
        }),
        final(state).render_count == if old(state).should_average {
            if old(state).render_count >= RENDER_COUNT_CAP {
                RENDER_COUNT_CAP as int
            } else {
                old(state).render_count + 1
            }
        } else {
            0int
        },
{
    let camera = state.camera();
    let fresh = crate::pixel::render(
        world,
        &camera,
        state.width,
        state.height,
        state.samples_per_pixel,
        state.max_depth,
        rng,
    );
    let out = if prev.len() == fresh.len() {
        crate::accum::accumulate(prev, &fresh, state.render_count, state.should_average)
    } else {
        fresh
    };
    state.update_render_globals();
    out
}

impl State {
    /// The fixed camera this state describes, at the specification level.
    pub open spec fn camera_spec(&self) -> crate::camera::Camera {
        crate::camera::Camera {
            aspect_ratio: self.aspect_ratio,
            viewport_height: self.viewport_height,
            viewport_width: self.viewport_width,
            focal_length: self.focal_length,
            origin: self.camera_origin,
            viewport_horizontal_vec: self.horizontal,
            viewport_vertical_vec: self.vertical,
            lower_left_corner: self.lower_left_corner,
        }
    }
}

/// The keydown map with one key's state replaced.
pub open spec fn updated_keys_s(k: KeydownMap, key: Key, down: bool) -> KeydownMap {
    match key {
        Key::W => KeydownMap { w: down, ..k },
        Key::A => KeydownMap { a: down, ..k },
        Key::S => KeydownMap { s: down, ..k },
        Key::D => KeydownMap { d: down, ..k },
        Key::Space => KeydownMap { space: down, ..k },
        Key::Shift => KeydownMap { shift: down, ..k },
        Key::Other => k,
    }
}

/// The spheres the default scene holds: a small diffuse sphere resting on
/// a large diffuse ground, flanked by a metal and a glass sphere.
pub open spec fn default_scene_s() -> Seq<Sphere> {
    seq![
        Sphere {
            center: Vec3 { x: 0, y: 0, z: ((-65536) as i64) },
            radius: 32768,
            material: Material {
                material_type: MaterialType::Diffuse,
                albedo: Vec3 { x: 6554, y: 13107, z: 32768 },
                fuzz: 0,
                refraction_index: 65536,
            },
            uuid: 0,
        },
        Sphere {
            center: Vec3 { x: 0, y: ((-6586368) as i64), z: ((-65536) as i64) },
            radius: 6553600,
            material: Material {
                material_type: MaterialType::Diffuse,
                albedo: Vec3 { x: 52429, y: 52429, z: 0 },
                fuzz: 0,
                refraction_index: 65536,
            },
            uuid: 1,
        },
        Sphere {
            center: Vec3 { x: 65536, y: 0, z: ((-65536) as i64) },
            radius: 32768,
            material: Material {
                material_type: MaterialType::Metal,
                albedo: Vec3 { x: 52429, y: 39322, z: 13107 },
                fuzz: 6554,
                refraction_index: 65536,
            },
            uuid: 2,
        },
        Sphere {
            center: Vec3 { x: ((-65536) as i64), y: 0, z: ((-65536) as i64) },
            radius: 32768,
            material: Material {
                material_type: MaterialType::Glass,
                albedo: Vec3 { x: 65536, y: 65536, z: 65536 },
                fuzz: 0,
                refraction_index: 98304,
            },
            uuid: 3,
        },
    ]
}

impl Default for State {
    /// The starting state: the default scene, a half-pi field of view from
    /// the origin looking down the negative z axis, averaging on, paused
    /// until the host grants input, and no frame counted yet.
    fn default() -> (r: State)
        ensures
            r == state_recomputed_s(
                State {
                    width: 640u32,
                    height: 360u32,
                    aspect_ratio: fp_div_s(640 * FP_SCALE, 360 * FP_SCALE) as i64,
                    focal_length: FP_SCALE,
                    lens_radius: 0i64,
                    camera_origin: Vec3 { x: 0, y: 0, z: 0 },
                    camera_field_of_view: 102944i64,
                    yaw: 0i64,
                    pitch: 0i64,
                    look_sensitivity: 66i64,
                    samples_per_pixel: 4u32,
                    max_depth: 8u32,
                    even_odd_count: 0u32,
                    should_average: true,
                    last_frame_weight: 0i64,
                    should_render: true,
                    is_paused: true,
                    should_save: false,
                    should_update_to_match_window_size: false,
                    last_resize_time: 0i64,
                    prev_now: 0i64,
                    prev_fps_update_time: 0i64,
                    keydown_map: KeydownMap {
                        w: false,
                        a: false,
                        s: false,
                        d: false,
                        space: false,
                        shift: false,
                    },
                    ..r
                },
            ),
            r.sphere_list@ == default_scene_s(),
            r.prev_fps@ == Seq::<i64>::empty(),
            spheres_wf(r.sphere_list@),
    {
        let mut sphere_list: Vec<Sphere> = Vec::new();
        sphere_list.push(
            Sphere {
                center: Vec3 { x: 0, y: 0, z: -65536 },
                radius: 32768,
                material: Material {
                    material_type: MaterialType::Diffuse,
                    albedo: Vec3 { x: 6554, y: 13107, z: 32768 },
                    fuzz: 0,
                    refraction_index: 65536,
                },
                uuid: 0,
            },
        );
        sphere_list.push(
            Sphere {
                center: Vec3 { x: 0, y: -6586368, z: -65536 },
                radius: 6553600,
                material: Material {
                    material_type: MaterialType::Diffuse,
                    albedo: Vec3 { x: 52429, y: 52429, z: 0 },
                    fuzz: 0,
                    refraction_index: 65536,
                },
                uuid: 1,
            },
        );
        sphere_list.push(
            Sphere {
                center: Vec3 { x: 65536, y: 0, z: -65536 },
                radius: 32768,
                material: Material {
                    material_type: MaterialType::Metal,
                    albedo: Vec3 { x: 52429, y: 39322, z: 13107 },
                    fuzz: 6554,
                    refraction_index: 65536,
                },
                uuid: 2,
            },
        );
        sphere_list.push(
            Sphere {
                center: Vec3 { x: -65536, y: 0, z: -65536 },
                radius: 32768,
                material: Material {
                    material_type: MaterialType::Glass,
                    albedo: Vec3 { x: 65536, y: 65536, z: 65536 },
                    fuzz: 0,
                    refraction_index: 98304,
                },
                uuid: 3,
            },
        );
        proof {
            assert(sphere_list@ =~= default_scene_s());
        }
        let mut st = State {
            width: 640,
            height: 360,
            aspect_ratio: fp_div(640 * FP_SCALE, 360 * FP_SCALE),
            viewport_height: 0,
            viewport_width: 0,
            focal_length: FP_SCALE,
            lens_radius: 0,
            camera_origin: Vec3 { x: 0, y: 0, z: 0 },
            horizontal: Vec3 { x: 0, y: 0, z: 0 },
            vertical: Vec3 { x: 0, y: 0, z: 0 },
            lower_left_corner: Vec3 { x: 0, y: 0, z: 0 },
            u: Vec3 { x: 0, y: 0, z: 0 },
            v: Vec3 { x: 0, y: 0, z: 0 },
            w: Vec3 { x: 0, y: 0, z: 0 },
            camera_field_of_view: 102944,
            yaw: 0,
            pitch: 0,
            look_sensitivity: 66,
            samples_per_pixel: 4,
            max_depth: 8,
            render_count: 0,
            even_odd_count: 0,
            should_average: true,
            last_frame_weight: 0,
            should_render: true,
            is_paused: true,
            should_save: false,
            should_update_to_match_window_size: false,
            last_resize_time: 0,
            prev_now: 0,
            prev_fps_update_time: 0,
            prev_fps: Vec::new(),
            keydown_map: KeydownMap {
                w: false,
                a: false,
                s: false,
                d: false,
                space: false,
                shift: false,
            },
            sphere_list,
        };
        st.recompute_viewport();
        st
    }
}

/// Return the whole state to its defaults.
pub fn handle_reset(state: &mut State)
    ensures
        final(state).sphere_list@ == default_scene_s(),
        final(state).prev_fps@ == Seq::<i64>::empty(),
        final(state).camera_field_of_view == 102944,
        final(state).render_count == 0,
{
    *state = State::default();
}

/// Note that the window changed size; the new dimensions are adopted once
/// the resizing goes quiet.
pub fn handle_resize(state: &mut State)
    ensures
        *final(state) == (State { should_update_to_match_window_size: true, ..*old(state) }),
{
    state.should_update_to_match_window_size = true;
}

/// Render dimensions for a window: the larger screen side is capped, and
/// the other side follows the screen's aspect ratio.
pub fn get_adjusted_screen_dimensions(raw_width: u32, raw_height: u32) -> (r: (u32, u32))
    requires
        raw_width >= 1,
        raw_height >= 1,
    ensures
        raw_width > raw_height ==> {
            let aw = if raw_width < 1280 {
                raw_width as int
            } else {
                1280int
            };
            r.0 == aw && r.1 == (aw * raw_height) / (raw_width as int)
        },
        raw_width <= raw_height ==> {
            let ah = if raw_width < 1280 {
                raw_width as int
            } else {
                1280int
            };
            r.1 == ah && r.0 == (ah * raw_width) / (raw_height as int)
        },
        r.0 <= 1280,
        r.1 <= 1280,
{
    if raw_width > raw_height {
        let adjusted_width: u32 = if raw_width < 1280 {
            raw_width
        } else {
            1280
        };
        proof {
            crate::fixed::lemma_mul_bound(adjusted_width as int, raw_height as int, 1280,
                0xffff_ffff);
        }
        let ah64: u64 = (adjusted_width as u64) * (raw_height as u64) / (raw_width as u64);
        proof {
            assert(adjusted_width as int * raw_height as int <= adjusted_width as int
                * raw_width as int) by (nonlinear_arith)
                requires
                    raw_height as int <= raw_width as int,
                    adjusted_width as int >= 0,
            ;
            vstd::arithmetic::div_mod::lemma_div_is_ordered(
                adjusted_width as int * raw_height as int,
                adjusted_width as int * raw_width as int,
                raw_width as int,
            );
            vstd::arithmetic::div_mod::lemma_div_by_multiple(adjusted_width as int,
                raw_width as int);
            vstd::arithmetic::div_mod::lemma_div_pos_is_pos(
                adjusted_width as int * raw_height as int,
                raw_width as int,
            );
        }
        (adjusted_width, ah64 as u32)
    } else {
        let adjusted_height: u32 = if raw_width < 1280 {
            raw_width
        } else {
            1280
        };
        proof {
            crate::fixed::lemma_mul_bound(adjusted_height as int, raw_width as int, 1280,
                0xffff_ffff);
        }
        let aw64: u64 = (adjusted_height as u64) * (raw_width as u64) / (raw_height as u64);
        proof {
            assert(adjusted_height as int * raw_width as int <= adjusted_height as int
                * raw_height as int) by (nonlinear_arith)
                requires
                    raw_width as int <= raw_height as int,
                    adjusted_height as int >= 0,
            ;
            vstd::arithmetic::div_mod::lemma_div_is_ordered(
                adjusted_height as int * raw_width as int,
                adjusted_height as int * raw_height as int,
                raw_height as int,
            );
            vstd::arithmetic::div_mod::lemma_div_by_multiple(adjusted_height as int,
                raw_height as int);
            vstd::arithmetic::div_mod::lemma_div_pos_is_pos(
                adjusted_height as int * raw_width as int,
                raw_height as int,
            );
        }
        (aw64 as u32, adjusted_height)
    }
}

/// The camera ray through the center of the viewport.
pub open spec fn center_ray_s(s: State) -> Ray {
    Ray {
        origin: s.camera_origin,
        direction: v_sub_s(
            v_add_s(
                v_add_s(s.lower_left_corner, v_div_s(s.horizontal, 2 * FP_SCALE)),
                v_div_s(s.vertical, 2 * FP_SCALE),
            ),
            s.camera_origin,
        ),
    }
}

/// The object in the center of the view: the nearest hit of the ray
/// through the middle of the viewport, for host-side selection.
pub fn get_center_hit(state: &State) -> (res: HitResult)
    requires
        spheres_wf(state.sphere_list@),
    ensures
        res == scene_hit_s(
            state.sphere_list@,
            center_ray_s(*state),
            0,
            crate::fixed::FP_MAX as int,
        ),
{
    let ray = Ray {
        origin: state.camera_origin,
        direction: state.lower_left_corner.add(&state.horizontal.div(2 * FP_SCALE)).add(
            &state.vertical.div(2 * FP_SCALE),
        ).sub(&state.camera_origin),
    };
    hit_spheres(&state.sphere_list, &ray, 0, crate::fixed::FP_MAX)
}

} // verus!
