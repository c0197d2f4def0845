//! The canvas-state discipline of a translated frame.
//!
//! `op_step` and `ops_run` model how executing the emitted operations moves
//! the canvas's clip rectangle and viewport. A raw callback may change that
//! state arbitrarily, so the model relates each operation to every state it
//! may produce. The restoration law below holds over *all* such executions:
//! whatever the frame held — geometry, resets, callbacks, or nothing at all
//! — the state after the translated operations equals the state captured
//! before them.

use vstd::prelude::*;
use crate::frame::{Vec2, IRect, SurfaceState, DrawOp, FrameData};
use crate::render::{spec_render, spec_degenerate};

verus! {

/// How one operation may move the canvas state. `window` is the rectangle a
/// viewport reset falls back to (the full render target).
pub open spec fn op_step(s: SurfaceState, op: DrawOp, window: IRect, s2: SurfaceState) -> bool {
    match op {
        DrawOp::SetClip { rect } => s2 == (SurfaceState { clip: rect, viewport: s.viewport }),
        DrawOp::SetViewport { rect } => s2 == (SurfaceState {
            clip: s.clip,
            viewport: (match rect {
                Some(r) => r,
                None => window,
            }),
        }),
        DrawOp::Geometry { .. } => s2 == s,
        // A raw callback is opaque: it may leave the canvas in any state.
        DrawOp::Callback { .. } => true,
    }
}

/// Whether executing `ops` in order can take the canvas from `s` to `s2`.
pub open spec fn ops_run(s: SurfaceState, ops: Seq<DrawOp>, window: IRect, s2: SurfaceState) -> bool
    decreases ops.len(),
{
    if ops.len() == 0 {
        s2 == s
    } else {
        exists|mid: SurfaceState|
            ops_run(s, ops.drop_last(), window, mid) && op_step(mid, ops.last(), window, s2)
    }
}

/// The translation of any frame restores the canvas state that was captured
/// before it: every execution of the emitted operations — including frames
/// with no geometry, only callbacks, or nothing at all — ends with the clip
/// rectangle and viewport that `saved` recorded.
pub proof fn lemma_render_restores_state(
    frame: FrameData,
    surface_scale: Vec2,
    saved: SurfaceState,
    handles: Set<u64>,
    window: IRect,
    s0: SurfaceState,
    s1: SurfaceState,
)
    requires
        s0.clip == saved.clip,
        s0.viewport == saved.viewport,
        ops_run(s0, spec_render(frame, surface_scale, saved, handles), window, s1),
    ensures
        s1.clip == saved.clip,
        s1.viewport == saved.viewport,
{
    let ops = spec_render(frame, surface_scale, saved, handles);
    if spec_degenerate(frame, surface_scale) {
        assert(s1 == s0);
    } else {
        // The translation ends with the two restoring operations; whatever
        // intermediate state the preceding operations reached, these two
        // set the clip rectangle and the viewport back to the saved values.
        assert(ops.last() == (DrawOp::SetViewport { rect: Some(saved.viewport) }));
        let mid = choose|mid: SurfaceState|
            ops_run(s0, ops.drop_last(), window, mid) && op_step(mid, ops.last(), window, s1);
        let inner = ops.drop_last();
        assert(inner.len() >= 1);
        assert(inner.last() == (DrawOp::SetClip { rect: saved.clip }));
        let mid2 = choose|mid2: SurfaceState|
            ops_run(s0, inner.drop_last(), window, mid2) && op_step(
                mid2,
                inner.last(),
                window,
                mid,
            );
        assert(mid.clip == saved.clip);
        assert(s1 == (SurfaceState { clip: mid.clip, viewport: saved.viewport }));
    }
}

} // verus!
