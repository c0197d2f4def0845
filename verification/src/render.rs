//! The frame translator: walks one frame's draw-list segments and turns
//! them into an explicit, fully-specified sequence of draw operations.
//!
//! For each geometry command the translator computes the pixel clip
//! rectangle, resolves the texture handle through the registry (a miss binds
//! no texture), and emits a clip-set followed by one indexed-triangle draw.
//! Reset commands reinitialize the canvas state; raw callbacks are passed
//! through by position. A degenerate framebuffer (zero or negative extent on
//! either axis) translates to no operations at all. Every non-degenerate
//! translation ends by restoring the canvas state captured before it began.

use vstd::prelude::*;
use crate::fixed::{fx_mul_raw, fx_mul};
use crate::frame::{Vec2, IRect, DrawCmd, DrawListData, FrameData, SurfaceState, DrawOp};
use crate::clip::{spec_effective_scale, spec_clip_rect, effective_scale, compute_clip};
use crate::registry::TextureRegistry;

verus! {

/// The operations one command contributes: nothing when fully clipped, a
/// clip-set and a draw for visible geometry, two state resets for a reset
/// request, and a pass-through for a raw callback.
pub open spec fn spec_cmd_ops(
    cmd: DrawCmd,
    list: usize,
    cmd_idx: usize,
    vtx_len: usize,
    off: Vec2,
    scale: Vec2,
    fb_w: int,
    fb_h: int,
    handles: Set<u64>,
) -> Seq<DrawOp> {
    match cmd {
        DrawCmd::Elements { count, clip, texture, vtx_offset, idx_offset } => {
            match spec_clip_rect(clip, off, scale, fb_w, fb_h) {
                None => Seq::empty(),
                Some(r) => seq![
                    DrawOp::SetClip { rect: Some(r) },
                    DrawOp::Geometry {
                        list,
                        texture: (if handles.contains(texture) {
                            Some(texture)
                        } else {
                            None
                        }),
                        vtx_offset,
                        vtx_count: (vtx_len - vtx_offset) as usize,
                        idx_offset,
                        idx_count: count,
                    },
                ],
            }
        },
        DrawCmd::ResetState => seq![
            DrawOp::SetClip { rect: None },
            DrawOp::SetViewport { rect: None },
        ],
        DrawCmd::RawCallback => seq![DrawOp::Callback { list, cmd: cmd_idx }],
    }
}

/// The operations a prefix of one segment's command list contributes.
pub open spec fn spec_cmds_ops(
    cmds: Seq<DrawCmd>,
    list: usize,
    vtx_len: usize,
    off: Vec2,
    scale: Vec2,
    fb_w: int,
    fb_h: int,
    handles: Set<u64>,
) -> Seq<DrawOp>
    decreases cmds.len(),
{
    if cmds.len() == 0 {
        Seq::empty()
    } else {
        spec_cmds_ops(cmds.drop_last(), list, vtx_len, off, scale, fb_w, fb_h, handles)
            + spec_cmd_ops(
            cmds.last(),
            list,
            (cmds.len() - 1) as usize,
            vtx_len,
            off,
            scale,
            fb_w,
            fb_h,
            handles,
        )
    }
}

/// The operations a prefix of the frame's segment list contributes.
pub open spec fn spec_lists_ops(
    lists: Seq<DrawListData>,
    off: Vec2,
    scale: Vec2,
    fb_w: int,
    fb_h: int,
    handles: Set<u64>,
) -> Seq<DrawOp>
    decreases lists.len(),
{
    if lists.len() == 0 {
        Seq::empty()
    } else {
        spec_lists_ops(lists.drop_last(), off, scale, fb_w, fb_h, handles) + spec_cmds_ops(
            lists.last().commands@,
            (lists.len() - 1) as usize,
            lists.last().vtx_len,
            off,
            scale,
            fb_w,
            fb_h,
            handles,
        )
    }
}

/// The effective per-axis render scale of a frame on a canvas with the given
/// internal scale.
pub open spec fn spec_render_scale(frame: FrameData, surface_scale: Vec2) -> Vec2 {
    Vec2 {
        x: spec_effective_scale(surface_scale.x, frame.framebuffer_scale.x),
        y: spec_effective_scale(surface_scale.y, frame.framebuffer_scale.y),
    }
}

/// Framebuffer width in raw fixed-point units: display width times the
/// effective horizontal scale.
pub open spec fn spec_fb_width(frame: FrameData, surface_scale: Vec2) -> int {
    fx_mul_raw(
        frame.display_size.x.raw as int,
        spec_render_scale(frame, surface_scale).x.raw as int,
    )
}

/// Framebuffer height in raw fixed-point units.
pub open spec fn spec_fb_height(frame: FrameData, surface_scale: Vec2) -> int {
    fx_mul_raw(
        frame.display_size.y.raw as int,
        spec_render_scale(frame, surface_scale).y.raw as int,
    )
}

/// A frame is degenerate when the framebuffer is not strictly positive on
/// both axes; such a frame draws nothing.
pub open spec fn spec_degenerate(frame: FrameData, surface_scale: Vec2) -> bool {
    !(spec_fb_width(frame, surface_scale) > 0 && spec_fb_height(frame, surface_scale) > 0)
}

/// The complete translation of one frame: nothing for a degenerate
/// framebuffer; otherwise every segment's operations in order, followed by
/// the two operations that restore the saved canvas state.
pub open spec fn spec_render(
    frame: FrameData,
    surface_scale: Vec2,
    saved: SurfaceState,
    handles: Set<u64>,
) -> Seq<DrawOp> {
    if spec_degenerate(frame, surface_scale) {
        Seq::empty()
    } else {
        spec_lists_ops(
            frame.lists@,
            frame.display_pos,
            spec_render_scale(frame, surface_scale),
            spec_fb_width(frame, surface_scale),
            spec_fb_height(frame, surface_scale),
            handles,
        ) + seq![
            DrawOp::SetClip { rect: saved.clip },
            DrawOp::SetViewport { rect: Some(saved.viewport) },
        ]
    }
}

/// Bytes per pixel of the font atlas's fixed 32-bit RGBA layout.
pub const RGBA32_BYTES: u32 = 4;

/// Row pitch in bytes for uploading an RGBA32 font atlas of the given pixel
/// width.
pub fn atlas_pitch(width: u32) -> (pitch: u32)
    requires
        width * RGBA32_BYTES <= u32::MAX,
    ensures
        pitch == width * RGBA32_BYTES,
{
    width * RGBA32_BYTES
}

/// Translates the GUI toolkit's frames against a registry of native
/// textures of type `T`.
pub struct Renderer<T> {
    /// The registry that owns every texture the translator may bind,
    /// including the font atlas registered at construction.
    pub textures: TextureRegistry<T>,
}

impl<T> Renderer<T> {
    /// Builds a renderer around an uploaded font-atlas texture: the registry
    /// starts with exactly that one texture, and the returned handle is the
    /// toolkit's designated font-texture handle.
    pub fn new(font_texture: T) -> (r: (Renderer<T>, u64))
        ensures
            r.0.textures@ == Map::<u64, T>::empty().insert(r.1, font_texture),
            r.0.textures@.dom().len() == 1,
            r.1 == 0,
            r.0.textures.wf(),
            r.0.textures.next_handle() == 1,
    {
        let mut textures = TextureRegistry::new();
        let handle = textures.insert(font_texture);
        proof {
            assert(textures@.dom() =~= Set::<u64>::empty().insert(handle));
        }
        (Renderer { textures }, handle)
    }

    /// Appends the two operations that reinitialize the canvas render state
    /// to a known baseline: clipping disabled, viewport reset to the full
    /// target.
    pub fn setup_render_state(ops: &mut Vec<DrawOp>)
        ensures
            final(ops)@ == old(ops)@ + seq![
                DrawOp::SetClip { rect: None },
                DrawOp::SetViewport { rect: None },
            ],
    {
        ops.push(DrawOp::SetClip { rect: None });
        ops.push(DrawOp::SetViewport { rect: None });
    }

    /// Translates one frame into the exact operation sequence given by
    /// `spec_render`, resolving texture handles against this renderer's
    /// registry. `saved` is the canvas state read just before the call; the
    /// translation restores it on every path that changed it.
    pub fn render(&self, frame: &FrameData, surface_scale: Vec2, saved: &SurfaceState) -> (ops: Vec<
        DrawOp,
    >)
        requires
            frame.wf(),
        ensures
            ops@ == spec_render(*frame, surface_scale, *saved, self.textures@.dom()),
    {
        let ghost handles = self.textures@.dom();
        let scale = Vec2 {
            x: effective_scale(surface_scale.x, frame.framebuffer_scale.x),
            y: effective_scale(surface_scale.y, frame.framebuffer_scale.y),
        };
        let fb_w = fx_mul(frame.display_size.x, scale.x);
        let fb_h = fx_mul(frame.display_size.y, scale.y);
        let mut ops: Vec<DrawOp> = Vec::new();
        if !(fb_w.raw > 0 && fb_h.raw > 0) {
            return ops;
        }
        let off = frame.display_pos;
        let n_lists = frame.lists.len();
        let mut li: usize = 0;
        while li < n_lists
            invariant
                frame.wf(),
                n_lists == frame.lists@.len(),
                li <= n_lists,
                scale == spec_render_scale(*frame, surface_scale),
                scale.wf(),
                off == frame.display_pos,
                fb_w.raw == spec_fb_width(*frame, surface_scale),
                fb_h.raw == spec_fb_height(*frame, surface_scale),
                fb_w.in_product_range(),
                fb_h.in_product_range(),
                handles == self.textures@.dom(),
                ops@ == spec_lists_ops(
                    frame.lists@.take(li as int),
                    off,
                    scale,
                    fb_w.raw as int,
                    fb_h.raw as int,
                    handles,
                ),
            decreases n_lists - li,
        {
            let list = &frame.lists[li];
            let n_cmds = list.commands.len();
            let mut ci: usize = 0;
            while ci < n_cmds
                invariant
                    frame.wf(),
                    n_lists == frame.lists@.len(),
                    li < n_lists,
                    list == frame.lists@[li as int],
                    n_cmds == list.commands@.len(),
                    ci <= n_cmds,
                    scale == spec_render_scale(*frame, surface_scale),
                    scale.wf(),
                    off == frame.display_pos,
                    fb_w.raw == spec_fb_width(*frame, surface_scale),
                    fb_h.raw == spec_fb_height(*frame, surface_scale),
                    fb_w.in_product_range(),
                    fb_h.in_product_range(),
                    handles == self.textures@.dom(),
                    ops@ == spec_lists_ops(
                        frame.lists@.take(li as int),
                        off,
                        scale,
                        fb_w.raw as int,
                        fb_h.raw as int,
                        handles,
                    ) + spec_cmds_ops(
                        list.commands@.take(ci as int),
                        li,
                        list.vtx_len,
                        off,
                        scale,
                        fb_w.raw as int,
                        fb_h.raw as int,
                        handles,
                    ),
                decreases n_cmds - ci,
            {
                proof {
                    assert(frame.lists@[li as int].wf());
                    assert(list.commands@[ci as int].wf(list.vtx_len));
                }
                let cmd = &list.commands[ci];
                match cmd {
                    DrawCmd::Elements { count, clip, texture, vtx_offset, idx_offset } => {
                        match compute_clip(clip, &off, &scale, fb_w, fb_h) {
                            None => {},
                            Some(r) => {
                                ops.push(DrawOp::SetClip { rect: Some(r) });
                                let resolved = if self.textures.contains(*texture) {
                                    Some(*texture)
                                } else {
                                    None
                                };
                                ops.push(
                                    DrawOp::Geometry {
                                        list: li,
                                        texture: resolved,
                                        vtx_offset: *vtx_offset,
                                        vtx_count: list.vtx_len - *vtx_offset,
                                        idx_offset: *idx_offset,
                                        idx_count: *count,
                                    },
                                );
                            },
                        }
                    },
                    DrawCmd::ResetState => {
                        Self::setup_render_state(&mut ops);
                    },
                    DrawCmd::RawCallback => {
                        ops.push(DrawOp::Callback { list: li, cmd: ci });
                    },
                }
                proof {
                    let cs = list.commands@;
                    assert(cs.take(ci + 1).drop_last() =~= cs.take(ci as int));
                    assert(cs.take(ci + 1).last() == cs[ci as int]);
                }
                ci = ci + 1;
            }
            proof {
                let ls = frame.lists@;
                assert(ls.take(li + 1).drop_last() =~= ls.take(li as int));
                assert(ls.take(li + 1).last() == ls[li as int]);
                assert(list.commands@.take(n_cmds as int) =~= list.commands@);
            }
            li = li + 1;
        }
        proof {
            assert(frame.lists@.take(n_lists as int) =~= frame.lists@);
        }
        ops.push(DrawOp::SetClip { rect: saved.clip });
        ops.push(DrawOp::SetViewport { rect: Some(saved.viewport) });
        ops
    }
}

/// A degenerate framebuffer — width or height zero or negative — translates
/// to no operations at all: zero draw calls are issued.
pub proof fn lemma_degenerate_frame_draws_nothing(
    frame: FrameData,
    surface_scale: Vec2,
    saved: SurfaceState,
    handles: Set<u64>,
)
    requires
        spec_fb_width(frame, surface_scale) <= 0 || spec_fb_height(frame, surface_scale) <= 0,
    ensures
        spec_render(frame, surface_scale, saved, handles) == Seq::<DrawOp>::empty(),
{
}

/// A command whose clip rectangle is empty or inverted after offset, scale
/// and clamping contributes no operations: its draw call is skipped.
pub proof fn lemma_clipped_command_draws_nothing(
    cmd: DrawCmd,
    list: usize,
    cmd_idx: usize,
    vtx_len: usize,
    off: Vec2,
    scale: Vec2,
    fb_w: int,
    fb_h: int,
    handles: Set<u64>,
)
    requires
        cmd matches DrawCmd::Elements { clip, .. } && spec_clip_rect(
            clip,
            off,
            scale,
            fb_w,
            fb_h,
        ) is None,
    ensures
        spec_cmd_ops(cmd, list, cmd_idx, vtx_len, off, scale, fb_w, fb_h, handles) == Seq::<
            DrawOp,
        >::empty(),
{
}

/// A geometry command whose texture handle is absent from the registry
/// still issues its draw call — with no texture bound — rather than
/// aborting the frame.
pub proof fn lemma_unknown_texture_still_draws(
    cmd: DrawCmd,
    list: usize,
    cmd_idx: usize,
    vtx_len: usize,
    off: Vec2,
    scale: Vec2,
    fb_w: int,
    fb_h: int,
    handles: Set<u64>,
)
    requires
        cmd matches DrawCmd::Elements { clip, texture, .. } && !handles.contains(texture)
            && spec_clip_rect(clip, off, scale, fb_w, fb_h) is Some,
    ensures
        ({
            let ops = spec_cmd_ops(cmd, list, cmd_idx, vtx_len, off, scale, fb_w, fb_h, handles);
            ops.len() == 2 && (ops[1] matches DrawOp::Geometry { texture: resolved, .. }
                && resolved is None)
        }),
{
}

} // verus!
