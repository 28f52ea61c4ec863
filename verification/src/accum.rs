//! Progressive accumulation: blending each rendered frame into a running
//! average so a static view refines over time, with an exact bypass when
//! averaging is off.

use vstd::prelude::*;

use crate::fixed::FP_SCALE;

verus! {

/// The ceiling on counted frames: the blend weight stops decaying here, so
/// a long-static view still responds to change.
pub const RENDER_COUNT_CAP: u32 = 255;

/// One blended channel byte: the running mean of `n` prior frames and one
/// new frame.
pub open spec fn blend_byte_s(p: int, c: int, n: int) -> int {
    (p * n + c) / (n + 1)
}

/// A blended byte lies between the previous byte and the new byte: blending
/// never overshoots either frame, so a static scene's pixels can only
/// settle, never diverge.
pub proof fn lemma_blend_byte_bounds(p: int, c: int, n: int)
    requires
        0 <= p <= 255,
        0 <= c <= 255,
        0 <= n,
    ensures
        (if p <= c {
            p
        } else {
            c
        }) <= blend_byte_s(p, c, n),
        blend_byte_s(p, c, n) <= (if p <= c {
            c
        } else {
            p
        }),
{
    let lo = if p <= c {
        p
    } else {
        c
    };
    let hi = if p <= c {
        c
    } else {
        p
    };
    assert(lo * (n + 1) <= p * n + c && p * n + c <= hi * (n + 1)) by (nonlinear_arith)
        requires
            lo <= p <= hi,
            lo <= c <= hi,
            0 <= n,
    ;
    vstd::arithmetic::div_mod::lemma_div_is_ordered(lo * (n + 1), p * n + c, n + 1);
    vstd::arithmetic::div_mod::lemma_div_is_ordered(p * n + c, hi * (n + 1), n + 1);
    vstd::arithmetic::div_mod::lemma_div_by_multiple(lo, n + 1);
    vstd::arithmetic::div_mod::lemma_div_by_multiple(hi, n + 1);
}

/// The weight the previous accumulated frame carries after `n` counted
/// frames, in fixed point: `n / (n + 1)`.
pub open spec fn frame_weight_s(n: int) -> int {
    (n * FP_SCALE) / (n + 1)
}

/// The previous-frame weight never decreases as frames accumulate: each
/// new frame contributes proportionally less, so a static scene's running
/// average settles rather than oscillating.
pub proof fn lemma_frame_weight_monotone(n1: int, n2: int)
    requires
        0 <= n1 <= n2,
    ensures
        frame_weight_s(n1) <= frame_weight_s(n2),
{
    let s = FP_SCALE as int;
    let q = (n2 * s) / (n2 + 1);
    let q1 = (n1 * s) / (n1 + 1);
    assert(0 <= n2 * s) by (nonlinear_arith)
        requires
            0 <= n2,
            s == 65536,
    ;
    assert(0 <= n1 * s) by (nonlinear_arith)
        requires
            0 <= n1,
            s == 65536,
    ;
    vstd::arithmetic::div_mod::lemma_div_pos_is_pos(n2 * s, n2 + 1);
    vstd::arithmetic::div_mod::lemma_div_pos_is_pos(n1 * s, n1 + 1);
    vstd::arithmetic::div_mod::lemma_fundamental_div_mod(n2 * s, n2 + 1);
    vstd::arithmetic::div_mod::lemma_mod_bound(n2 * s, n2 + 1);
    vstd::arithmetic::div_mod::lemma_fundamental_div_mod(n1 * s, n1 + 1);
    vstd::arithmetic::div_mod::lemma_mod_bound(n1 * s, n1 + 1);
    if q1 > q {
        assert(false) by (nonlinear_arith)
            requires
                0 <= n1 <= n2,
                s == 65536,
                0 <= q,
                0 <= q1,
                q1 >= q + 1,
                n2 * s == (n2 + 1) * q + (n2 * s) % (n2 + 1),
                0 <= (n2 * s) % (n2 + 1) < n2 + 1,
                n1 * s == (n1 + 1) * q1 + (n1 * s) % (n1 + 1),
                0 <= (n1 * s) % (n1 + 1) < n1 + 1,
        ;
    }
}

/// The previous-frame weight never reaches one: however many frames have
/// accumulated, a new frame always contributes to the display.
pub proof fn lemma_frame_weight_below_one(n: int)
    requires
        0 <= n,
    ensures
        frame_weight_s(n) < FP_SCALE,
{
    let s = FP_SCALE as int;
    let q = (n * s) / (n + 1);
    vstd::arithmetic::div_mod::lemma_fundamental_div_mod(n * s, n + 1);
    vstd::arithmetic::div_mod::lemma_mod_bound(n * s, n + 1);
    if q >= s {
        assert(false) by (nonlinear_arith)
            requires
                0 <= n,
                s == 65536,
                q >= s,
                n * s == (n + 1) * q + (n * s) % (n + 1),
                0 <= (n * s) % (n + 1) < n + 1,
        ;
    }
}

/// Each byte of an averaged frame lies between the previous frame's byte
/// and the new frame's byte: with a static scene the displayed image can
/// only settle between successive renders, never diverge from them.
pub proof fn lemma_accumulate_convex(prev: Seq<u8>, cur: Seq<u8>, n: int, i: int)
    requires
        prev.len() == cur.len(),
        0 <= i < cur.len(),
        0 <= n,
    ensures
        (if prev[i] <= cur[i] {
            prev[i]
        } else {
            cur[i]
        }) <= accumulate_s(prev, cur, n, true)[i],
        accumulate_s(prev, cur, n, true)[i] <= (if prev[i] <= cur[i] {
            cur[i]
        } else {
            prev[i]
        }),
{
    lemma_blend_byte_bounds(prev[i] as int, cur[i] as int, n);
}

/// The buffer a frame displays: the new frame alone when averaging is off,
/// else each byte blended into the running mean of the `n` frames counted
/// so far.
pub open spec fn accumulate_s(prev: Seq<u8>, cur: Seq<u8>, n: int, avg: bool) -> Seq<u8> {
    if !avg {
        cur
    } else {
        Seq::new(cur.len(), |i: int| blend_byte_s(prev[i] as int, cur[i] as int, n) as u8)
    }
}

/// Blend a newly rendered frame with the previous accumulated frame. With
/// averaging off the new frame passes through untouched, byte for byte:
/// every frame is then independent of the last.
pub fn accumulate(prev: &Vec<u8>, cur: &Vec<u8>, frames: u32, should_average: bool) -> (out: Vec<
    u8,
>)
    requires
        prev@.len() == cur@.len(),
    ensures
        out@ == accumulate_s(prev@, cur@, frames as int, should_average),
        !should_average ==> out@ == cur@,
        out@.len() == cur@.len(),
{
    let n = cur.len();
    let mut out: Vec<u8> = Vec::new();
    let mut i: usize = 0;
    if !should_average {
        while i < n
            invariant
                0 <= i <= n,
                n == cur@.len(),
                out@ == cur@.subrange(0, i as int),
            decreases n - i,
        {
            out.push(cur[i]);
            i += 1;
        }
        proof {
            assert(out@ =~= cur@);
        }
        out
    } else {
        while i < n
            invariant
                0 <= i <= n,
                n == cur@.len(),
                prev@.len() == cur@.len(),
                out@.len() == i,
                forall|j: int|
                    0 <= j < i ==> out@[j] == blend_byte_s(prev@[j] as int, cur@[j] as int,
                        frames as int) as u8,
            decreases n - i,
        {
            proof {
                lemma_blend_byte_bounds(prev@[i as int] as int, cur@[i as int] as int,
                    frames as int);
                crate::fixed::lemma_mul_bound(prev@[i as int] as int, frames as int, 255,
                    0xffff_ffff);
            }
            let b = (((prev[i] as u64) * (frames as u64) + (cur[i] as u64)) / (frames as u64
                + 1)) as u8;
            out.push(b);
            i += 1;
        }
        proof {
            assert(out@ =~= accumulate_s(prev@, cur@, frames as int, should_average));
        }
        out
    }
}

} // verus!
