//! Clip-rectangle computation for one geometry command.
//!
//! A command's clip rectangle arrives in toolkit coordinates; it is offset by
//! the display position, scaled per axis into framebuffer pixels, clamped to
//! the framebuffer, and truncated to an integer pixel rectangle. A rectangle
//! that is empty or inverted after clamping yields nothing: the command is
//! fully clipped and must not reach the draw primitive.

use vstd::prelude::*;
use crate::fixed::{Fx, FX_ONE, fx_mul_raw, fx_sub_raw, fx_trunc_raw, fx_sub, fx_mul, fx_trunc};
use crate::frame::{Vec2, RectFx, IRect};

verus! {

/// The effective per-axis render scale: when the canvas does not scale
/// internally (its own factor is exactly 1.0) the frame's framebuffer scale
/// applies; otherwise 1.0, so the scale is not applied twice.
pub open spec fn spec_effective_scale(surface: Fx, frame: Fx) -> Fx {
    if surface.raw == FX_ONE {
        frame
    } else {
        Fx { raw: FX_ONE }
    }
}

/// One coordinate moved from toolkit space to framebuffer space: offset by
/// the display position, then scaled.
pub open spec fn spec_to_fb(c: int, off: int, scale: int) -> int {
    fx_mul_raw(fx_sub_raw(c, off), scale)
}

/// A transformed min coordinate, floored at the framebuffer's edge.
pub open spec fn spec_clamp_min(v: int) -> int {
    if v < 0 {
        0
    } else {
        v
    }
}

/// A transformed max coordinate, capped at the framebuffer's extent.
pub open spec fn spec_clamp_max(v: int, fb: int) -> int {
    if v > fb {
        fb
    } else {
        v
    }
}

/// The integer pixel rectangle of one command's clip rectangle, or `None`
/// when the clamped rectangle is empty or inverted on either axis.
pub open spec fn spec_clip_rect(clip: RectFx, off: Vec2, scale: Vec2, fb_w: int, fb_h: int) -> Option<
    IRect,
> {
    let min_x = spec_clamp_min(spec_to_fb(clip.min.x.raw as int, off.x.raw as int, scale.x.raw as int));
    let min_y = spec_clamp_min(spec_to_fb(clip.min.y.raw as int, off.y.raw as int, scale.y.raw as int));
    let max_x = spec_clamp_max(spec_to_fb(clip.max.x.raw as int, off.x.raw as int, scale.x.raw as int), fb_w);
    let max_y = spec_clamp_max(spec_to_fb(clip.max.y.raw as int, off.y.raw as int, scale.y.raw as int), fb_h);
    if max_x <= min_x || max_y <= min_y {
        None
    } else {
        Some(
            IRect {
                x: fx_trunc_raw(min_x) as i32,
                y: fx_trunc_raw(min_y) as i32,
                w: fx_trunc_raw(max_x - min_x) as u32,
                h: fx_trunc_raw(max_y - min_y) as u32,
            },
        )
    }
}

/// The effective per-axis render scale (see `spec_effective_scale`).
pub fn effective_scale(surface: Fx, frame: Fx) -> (r: Fx)
    requires
        frame.wf(),
    ensures
        r == spec_effective_scale(surface, frame),
        r.wf(),
{
    if surface.raw == FX_ONE {
        frame
    } else {
        Fx::one()
    }
}

/// Computes the pixel clip rectangle of one geometry command, or `None` when
/// the command is fully clipped (no draw call may be issued for it).
pub fn compute_clip(clip: &RectFx, off: &Vec2, scale: &Vec2, fb_w: Fx, fb_h: Fx) -> (r: Option<
    IRect,
>)
    requires
        clip.wf(),
        off.wf(),
        scale.wf(),
        fb_w.in_product_range(),
        fb_h.in_product_range(),
    ensures
        r == spec_clip_rect(*clip, *off, *scale, fb_w.raw as int, fb_h.raw as int),
{
    let tmin_x = fx_mul(fx_sub(clip.min.x, off.x), scale.x);
    let tmin_y = fx_mul(fx_sub(clip.min.y, off.y), scale.y);
    let tmax_x = fx_mul(fx_sub(clip.max.x, off.x), scale.x);
    let tmax_y = fx_mul(fx_sub(clip.max.y, off.y), scale.y);

    let min_x = if tmin_x.raw < 0 { Fx { raw: 0 } } else { tmin_x };
    let min_y = if tmin_y.raw < 0 { Fx { raw: 0 } } else { tmin_y };
    let max_x = if tmax_x.raw > fb_w.raw { fb_w } else { tmax_x };
    let max_y = if tmax_y.raw > fb_h.raw { fb_h } else { tmax_y };

    if max_x.raw <= min_x.raw || max_y.raw <= min_y.raw {
        None
    } else {
        let x = fx_trunc(min_x) as i32;
        let y = fx_trunc(min_y) as i32;
        let w = fx_trunc(Fx { raw: max_x.raw - min_x.raw }) as u32;
        let h = fx_trunc(Fx { raw: max_y.raw - min_y.raw }) as u32;
        Some(IRect { x, y, w, h })
    }
}

} // verus!
