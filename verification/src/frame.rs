//! Plain-value description of one frame of draw data, and the draw
//! operations the translator emits.
//!
//! The shell around the library converts the GUI toolkit's per-frame output
//! into these types (fixed-point coordinates in place of floats, command
//! indices in place of function pointers), hands them to the translator, and
//! executes the resulting operations against the canvas in order.

use vstd::prelude::*;
use crate::fixed::Fx;

verus! {

/// Byte stride of one vertex record: position (2 x 4 bytes), texture
/// coordinate (2 x 4 bytes), packed color (4 bytes).
pub const VERTEX_STRIDE: usize = 20;

/// Byte offset of the position field within a vertex record.
pub const VERTEX_POS_OFFSET: usize = 0;

/// Byte offset of the texture-coordinate field within a vertex record.
pub const VERTEX_UV_OFFSET: usize = 8;

/// Byte offset of the packed-color field within a vertex record.
pub const VERTEX_COL_OFFSET: usize = 16;

/// A pair of per-axis fixed-point values (a point, a size or a scale).
#[derive(Clone, Copy, PartialEq, Eq, Structural, Debug)]
pub struct Vec2 {
    pub x: Fx,
    pub y: Fx,
}

impl Vec2 {
    pub open spec fn wf(self) -> bool {
        self.x.wf() && self.y.wf()
    }
}

/// An axis-aligned rectangle in the toolkit's coordinate space.
#[derive(Clone, Copy, PartialEq, Eq, Structural, Debug)]
pub struct RectFx {
    pub min: Vec2,
    pub max: Vec2,
}

impl RectFx {
    pub open spec fn wf(self) -> bool {
        self.min.wf() && self.max.wf()
    }
}

/// An integer pixel rectangle as the canvas API takes it: top-left corner,
/// width and height.
#[derive(Clone, Copy, PartialEq, Eq, Structural, Debug)]
pub struct IRect {
    pub x: i32,
    pub y: i32,
    pub w: u32,
    pub h: u32,
}

/// One command of a draw-list segment.
#[derive(Clone, Copy, PartialEq, Eq, Structural, Debug)]
pub enum DrawCmd {
    /// Draw indexed triangles: a clip rectangle in toolkit space, a texture
    /// handle, and offsets into the segment's shared vertex/index buffers.
    Elements {
        /// Number of indices to draw.
        count: usize,
        /// Clip rectangle in toolkit coordinates, before offset and scale.
        clip: RectFx,
        /// Texture handle to resolve through the registry.
        texture: u64,
        /// First vertex of this command within the segment's vertex buffer.
        vtx_offset: usize,
        /// First index of this command within the segment's index buffer.
        idx_offset: usize,
    },
    /// Request to reinitialize the canvas render state.
    ResetState,
    /// An embedded native callback, executed by the shell without
    /// interpretation; identified here by its position in the frame.
    RawCallback,
}

impl DrawCmd {
    pub open spec fn wf(self, vtx_len: usize) -> bool {
        match self {
            DrawCmd::Elements { clip, vtx_offset, .. } => clip.wf() && vtx_offset <= vtx_len,
            DrawCmd::ResetState => true,
            DrawCmd::RawCallback => true,
        }
    }
}

/// One draw-list segment: the size of its shared vertex buffer and its
/// ordered commands.
#[derive(PartialEq, Eq, Debug)]
pub struct DrawListData {
    /// Number of vertex records in the segment's vertex buffer.
    pub vtx_len: usize,
    /// The segment's commands, in issue order.
    pub commands: Vec<DrawCmd>,
}

impl DrawListData {
    pub open spec fn wf(self) -> bool {
        forall|j: int| 0 <= j < self.commands@.len() ==> self.commands@[j].wf(self.vtx_len)
    }
}

/// One frame of draw data.
#[derive(PartialEq, Eq, Debug)]
pub struct FrameData {
    /// Size of the display area in toolkit coordinates.
    pub display_size: Vec2,
    /// Top-left offset of the toolkit's coordinate space.
    pub display_pos: Vec2,
    /// Per-axis ratio of framebuffer pixels to toolkit coordinates.
    pub framebuffer_scale: Vec2,
    /// The frame's draw-list segments, in issue order.
    pub lists: Vec<DrawListData>,
}

impl FrameData {
    pub open spec fn wf(self) -> bool {
        &&& self.display_size.wf()
        &&& self.display_pos.wf()
        &&& self.framebuffer_scale.wf()
        &&& forall|i: int| 0 <= i < self.lists@.len() ==> (#[trigger] self.lists@[i]).wf()
    }
}

/// Canvas state captured before a frame's translation and restored after:
/// the clip rectangle (`None` = clipping disabled) and the viewport.
#[derive(Clone, Copy, PartialEq, Eq, Structural, Debug)]
pub struct SurfaceState {
    pub clip: Option<IRect>,
    pub viewport: IRect,
}

/// One operation of the translated frame, executed against the canvas in
/// order.
#[derive(Clone, Copy, PartialEq, Eq, Structural, Debug)]
pub enum DrawOp {
    /// Set the canvas clip rectangle (`None` = disable clipping).
    SetClip { rect: Option<IRect> },
    /// Set the canvas viewport (`None` = reset to the full target).
    SetViewport { rect: Option<IRect> },
    /// Issue one indexed-triangle draw call against the named segment's
    /// buffers. `texture` is the resolved handle: `None` binds no texture
    /// (the handle missed the registry or the draw is untextured).
    Geometry {
        /// Index of the draw-list segment whose buffers are read.
        list: usize,
        /// Resolved texture handle, `None` = draw untextured.
        texture: Option<u64>,
        /// First vertex record to address.
        vtx_offset: usize,
        /// Number of vertex records addressable from `vtx_offset` on.
        vtx_count: usize,
        /// First index-buffer element to read.
        idx_offset: usize,
        /// Number of indices to draw.
        idx_count: usize,
    },
    /// Run the embedded native callback of the named command.
    Callback { list: usize, cmd: usize },
}

/// Byte offsets of the position, texture-coordinate and color fields of the
/// vertex record at `vtx_offset`, relative to the start of a segment's
/// vertex buffer.
pub fn vertex_field_offsets(vtx_offset: usize) -> (r: (usize, usize, usize))
    requires
        vtx_offset * VERTEX_STRIDE + VERTEX_COL_OFFSET <= usize::MAX,
    ensures
        r.0 == vtx_offset * VERTEX_STRIDE + VERTEX_POS_OFFSET,
        r.1 == vtx_offset * VERTEX_STRIDE + VERTEX_UV_OFFSET,
        r.2 == vtx_offset * VERTEX_STRIDE + VERTEX_COL_OFFSET,
{
    let base: usize = vtx_offset * VERTEX_STRIDE;
    (base + VERTEX_POS_OFFSET, base + VERTEX_UV_OFFSET, base + VERTEX_COL_OFFSET)
}

} // verus!
