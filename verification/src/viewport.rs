//! Letterboxing: fitting the video rectangle into the window.
//!
//! The viewport is the largest rectangle with the video's aspect ratio
//! that fits the window, centred; the remaining border is left black.

use vstd::prelude::*;

use vstd::arithmetic::div_mod::lemma_div_is_ordered;
use vstd::arithmetic::div_mod::lemma_div_multiples_vanish;

verus! {

/// The window rectangle the video is drawn into.
#[derive(Clone, Copy, Debug, PartialEq, Eq, Structural)]
pub struct Viewport {
    pub x: u32,
    pub y: u32,
    pub width: u32,
    pub height: u32,
}

proof fn lemma_mul_u32_bounds(a: int, b: int) by (nonlinear_arith)
    requires
        0 <= a <= 0xffffffff,
        0 <= b <= 0xffffffff,
    ensures
        0 <= a * b <= 0xfffffffe00000001,
{
}

/// Computes the letterboxed viewport for a video of `video_w` by
/// `video_h` in a window of `win_w` by `win_h`: one side fills the
/// window, the other is scaled by the same ratio (rounding down) and
/// centred.
pub fn letterbox(video_w: u32, video_h: u32, win_w: u32, win_h: u32) -> (r: Viewport)
    requires
        video_w >= 1,
        video_h >= 1,
        win_w >= 1,
        win_h >= 1,
    ensures
        r.width <= win_w,
        r.height <= win_h,
        r.x == (win_w - r.width) / 2,
        r.y == (win_h - r.height) / 2,
        if win_w * video_h <= win_h * video_w {
            r.width == win_w && r.height == (video_h * win_w) / (video_w as int)
        } else {
            r.height == win_h && r.width == (video_w * win_h) / (video_h as int)
        },
{
    let vw: u64 = video_w as u64;
    let vh: u64 = video_h as u64;
    let ww: u64 = win_w as u64;
    let wh: u64 = win_h as u64;
    proof {
        lemma_mul_u32_bounds(ww as int, vh as int);
        lemma_mul_u32_bounds(wh as int, vw as int);
        lemma_mul_u32_bounds(vh as int, ww as int);
        lemma_mul_u32_bounds(vw as int, wh as int);
    }
    if ww * vh <= wh * vw {
        // Width-constrained: the window is at most as wide, relative to
        // the video, as it is tall.
        let h64: u64 = (vh * ww) / vw;
        proof {
            assert(vh * ww == ww * vh) by (nonlinear_arith);
            assert(wh * vw == vw * wh) by (nonlinear_arith);
            lemma_div_is_ordered((vh * ww) as int, (wh * vw) as int, vw as int);
            lemma_div_multiples_vanish(wh as int, vw as int);
        }
        let h: u32 = h64 as u32;
        let y: u32 = (win_h - h) / 2;
        Viewport { x: 0, y, width: win_w, height: h }
    } else {
        let w64: u64 = (vw * wh) / vh;
        proof {
            lemma_div_is_ordered((vw * wh) as int, (ww * vh) as int, vh as int);
            lemma_div_multiples_vanish(ww as int, vh as int);
            assert(vw * wh == wh * vw) by (nonlinear_arith);
            assert(ww * vh == vh * ww) by (nonlinear_arith);
        }
        let w: u32 = w64 as u32;
        let x: u32 = (win_w - w) / 2;
        Viewport { x, y: 0, width: w, height: win_h }
    }
}

} // verus!
