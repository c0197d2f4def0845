use imgui_sdl2_renderer::fixed::Fx;
use imgui_sdl2_renderer::frame::{
    DrawCmd, DrawListData, DrawOp, FrameData, IRect, RectFx, SurfaceState, Vec2,
    vertex_field_offsets,
};
use imgui_sdl2_renderer::clip::{compute_clip, effective_scale};
use imgui_sdl2_renderer::render::Renderer;

fn fxi(v: i32) -> Fx {
    Fx::from_int(v)
}

fn vec2i(x: i32, y: i32) -> Vec2 {
    Vec2 { x: fxi(x), y: fxi(y) }
}

fn rect(x1: i32, y1: i32, x2: i32, y2: i32) -> RectFx {
    RectFx { min: vec2i(x1, y1), max: vec2i(x2, y2) }
}

fn saved_state() -> SurfaceState {
    SurfaceState {
        clip: Some(IRect { x: 3, y: 4, w: 5, h: 6 }),
        viewport: IRect { x: 0, y: 0, w: 640, h: 480 },
    }
}

fn geometry_frame(clip: RectFx, texture: u64) -> FrameData {
    FrameData {
        display_size: vec2i(100, 100),
        display_pos: vec2i(0, 0),
        framebuffer_scale: vec2i(2, 2),
        lists: vec![DrawListData {
            vtx_len: 8,
            commands: vec![DrawCmd::Elements {
                count: 6,
                clip,
                texture,
                vtx_offset: 2,
                idx_offset: 3,
            }],
        }],
    }
}

fn count_geometry(ops: &[DrawOp]) -> usize {
    ops.iter()
        .filter(|op| matches!(op, DrawOp::Geometry { .. }))
        .count()
}

#[test]
fn clip_transform_exact() {
    // batch_clip [10,10,50,50], display_position [0,0], render_scale [2,2],
    // framebuffer 200x200: the transformed rectangle is [20,20,100,100] and
    // no clamping triggers, so the pixel rectangle is 80x80 at (20,20).
    let r = compute_clip(
        &rect(10, 10, 50, 50),
        &vec2i(0, 0),
        &vec2i(2, 2),
        fxi(200),
        fxi(200),
    );
    assert_eq!(r, Some(IRect { x: 20, y: 20, w: 80, h: 80 }));
}

#[test]
fn clip_transform_clamps_to_framebuffer() {
    // Same inputs, framebuffer 60x60: the max corner clamps to [60,60].
    let r = compute_clip(
        &rect(10, 10, 50, 50),
        &vec2i(0, 0),
        &vec2i(2, 2),
        fxi(60),
        fxi(60),
    );
    assert_eq!(r, Some(IRect { x: 20, y: 20, w: 40, h: 40 }));
}

#[test]
fn clip_transform_floors_min_at_zero() {
    let r = compute_clip(
        &rect(-10, -10, 50, 50),
        &vec2i(0, 0),
        &vec2i(1, 1),
        fxi(200),
        fxi(200),
    );
    assert_eq!(r, Some(IRect { x: 0, y: 0, w: 50, h: 50 }));
}

#[test]
fn clip_transform_applies_display_position() {
    let r = compute_clip(
        &rect(10, 10, 50, 50),
        &vec2i(10, 10),
        &vec2i(1, 1),
        fxi(200),
        fxi(200),
    );
    assert_eq!(r, Some(IRect { x: 0, y: 0, w: 40, h: 40 }));
}

#[test]
fn clip_transform_fractional_scale() {
    // Scale 1.5 per axis: [10,10,50,50] maps to [15,15,75,75].
    let s = Fx { raw: 3 * 65536 / 2 };
    let scale = Vec2 { x: s, y: s };
    let r = compute_clip(&rect(10, 10, 50, 50), &vec2i(0, 0), &scale, fxi(200), fxi(200));
    assert_eq!(r, Some(IRect { x: 15, y: 15, w: 60, h: 60 }));
}

#[test]
fn clip_inverted_rectangle_is_rejected() {
    let r = compute_clip(
        &rect(50, 10, 10, 50),
        &vec2i(0, 0),
        &vec2i(1, 1),
        fxi(200),
        fxi(200),
    );
    assert_eq!(r, None);
}

#[test]
fn clip_outside_framebuffer_is_rejected() {
    // Entirely left of the framebuffer: max clamps below min.
    let r = compute_clip(
        &rect(-50, 10, -10, 50),
        &vec2i(0, 0),
        &vec2i(1, 1),
        fxi(200),
        fxi(200),
    );
    assert_eq!(r, None);
}

#[test]
fn effective_scale_uses_frame_scale_at_identity() {
    assert_eq!(effective_scale(fxi(1), fxi(2)), fxi(2));
}

#[test]
fn effective_scale_is_one_when_canvas_scales() {
    assert_eq!(effective_scale(fxi(2), fxi(3)), fxi(1));
}

#[test]
fn degenerate_framebuffer_renders_nothing() {
    let (renderer, _font) = Renderer::new(7u32);
    let mut frame = geometry_frame(rect(10, 10, 50, 50), 0);
    frame.display_size = vec2i(0, 100);
    let ops = renderer.render(&frame, vec2i(1, 1), &saved_state());
    assert!(ops.is_empty());

    frame.display_size = vec2i(100, -5);
    let ops = renderer.render(&frame, vec2i(1, 1), &saved_state());
    assert!(ops.is_empty());
}

#[test]
fn fully_clipped_command_issues_no_draw_call() {
    let (renderer, font) = Renderer::new(7u32);
    // After offset and scale the rectangle lies entirely outside the
    // framebuffer, so max clamps to 0 on the x axis: max <= min.
    let frame = geometry_frame(rect(-50, 10, -10, 50), font);
    let saved = saved_state();
    let ops = renderer.render(&frame, vec2i(1, 1), &saved);
    assert_eq!(count_geometry(&ops), 0);
    // Only the two restoring operations remain.
    assert_eq!(
        ops,
        vec![
            DrawOp::SetClip { rect: saved.clip },
            DrawOp::SetViewport { rect: Some(saved.viewport) },
        ]
    );
}

#[test]
fn visible_command_translates_to_clip_and_draw() {
    let (renderer, font) = Renderer::new(7u32);
    let frame = geometry_frame(rect(10, 10, 50, 50), font);
    let saved = saved_state();
    // Canvas scale 1.0 on both axes: the frame's scale factor 2 applies.
    let ops = renderer.render(&frame, vec2i(1, 1), &saved);
    assert_eq!(
        ops,
        vec![
            DrawOp::SetClip { rect: Some(IRect { x: 20, y: 20, w: 80, h: 80 }) },
            DrawOp::Geometry {
                list: 0,
                texture: Some(font),
                vtx_offset: 2,
                vtx_count: 6,
                idx_offset: 3,
                idx_count: 6,
            },
            DrawOp::SetClip { rect: saved.clip },
            DrawOp::SetViewport { rect: Some(saved.viewport) },
        ]
    );
}

#[test]
fn unknown_texture_handle_still_draws_untextured() {
    let (renderer, _font) = Renderer::new(7u32);
    let frame = geometry_frame(rect(10, 10, 50, 50), 99);
    let ops = renderer.render(&frame, vec2i(1, 1), &saved_state());
    assert_eq!(count_geometry(&ops), 1);
    assert!(ops.iter().any(|op| matches!(
        op,
        DrawOp::Geometry { texture: None, .. }
    )));
}

#[test]
fn state_restored_with_no_geometry() {
    let (renderer, _font) = Renderer::new(7u32);
    // A frame holding only a raw callback: the translation still ends by
    // restoring the saved clip rectangle and viewport.
    let frame = FrameData {
        display_size: vec2i(100, 100),
        display_pos: vec2i(0, 0),
        framebuffer_scale: vec2i(1, 1),
        lists: vec![DrawListData { vtx_len: 0, commands: vec![DrawCmd::RawCallback] }],
    };
    let saved = saved_state();
    let ops = renderer.render(&frame, vec2i(1, 1), &saved);
    assert_eq!(
        ops,
        vec![
            DrawOp::Callback { list: 0, cmd: 0 },
            DrawOp::SetClip { rect: saved.clip },
            DrawOp::SetViewport { rect: Some(saved.viewport) },
        ]
    );

    // An entirely empty frame restores as well.
    let empty = FrameData {
        display_size: vec2i(100, 100),
        display_pos: vec2i(0, 0),
        framebuffer_scale: vec2i(1, 1),
        lists: vec![],
    };
    let ops = renderer.render(&empty, vec2i(1, 1), &saved);
    assert_eq!(
        ops,
        vec![
            DrawOp::SetClip { rect: saved.clip },
            DrawOp::SetViewport { rect: Some(saved.viewport) },
        ]
    );
}

#[test]
fn mixed_frame_translates_in_order() {
    let (renderer, font) = Renderer::new(7u32);
    // Canvas scale (1, 2): the frame's scale 2 applies on x, but y keeps 1
    // because the canvas already scales that axis. Framebuffer is 200x100.
    let frame = FrameData {
        display_size: vec2i(100, 100),
        display_pos: vec2i(5, 0),
        framebuffer_scale: vec2i(2, 2),
        lists: vec![
            DrawListData {
                vtx_len: 10,
                commands: vec![
                    DrawCmd::Elements {
                        count: 3,
                        clip: rect(10, 10, 50, 50),
                        texture: font,
                        vtx_offset: 0,
                        idx_offset: 0,
                    },
                    DrawCmd::ResetState,
                ],
            },
            DrawListData {
                vtx_len: 4,
                commands: vec![
                    DrawCmd::RawCallback,
                    DrawCmd::Elements {
                        count: 6,
                        clip: rect(0, 0, 300, 300),
                        texture: 42,
                        vtx_offset: 1,
                        idx_offset: 2,
                    },
                ],
            },
        ],
    };
    let saved = saved_state();
    let ops = renderer.render(&frame, vec2i(1, 2), &saved);
    assert_eq!(
        ops,
        vec![
            // (10,10)-(50,50) offset by (5,0), scaled by (2,1).
            DrawOp::SetClip { rect: Some(IRect { x: 10, y: 10, w: 80, h: 40 }) },
            DrawOp::Geometry {
                list: 0,
                texture: Some(font),
                vtx_offset: 0,
                vtx_count: 10,
                idx_offset: 0,
                idx_count: 3,
            },
            DrawOp::SetClip { rect: None },
            DrawOp::SetViewport { rect: None },
            DrawOp::Callback { list: 1, cmd: 0 },
            // (0,0)-(300,300): min floors at 0, max clamps to 200x100.
            DrawOp::SetClip { rect: Some(IRect { x: 0, y: 0, w: 200, h: 100 }) },
            DrawOp::Geometry {
                list: 1,
                texture: None,
                vtx_offset: 1,
                vtx_count: 3,
                idx_offset: 2,
                idx_count: 6,
            },
            DrawOp::SetClip { rect: saved.clip },
            DrawOp::SetViewport { rect: Some(saved.viewport) },
        ]
    );
}

#[test]
fn reset_command_reinitializes_state() {
    let (renderer, _font) = Renderer::new(7u32);
    let frame = FrameData {
        display_size: vec2i(100, 100),
        display_pos: vec2i(0, 0),
        framebuffer_scale: vec2i(1, 1),
        lists: vec![DrawListData { vtx_len: 0, commands: vec![DrawCmd::ResetState] }],
    };
    let saved = saved_state();
    let ops = renderer.render(&frame, vec2i(1, 1), &saved);
    assert_eq!(
        ops,
        vec![
            DrawOp::SetClip { rect: None },
            DrawOp::SetViewport { rect: None },
            DrawOp::SetClip { rect: saved.clip },
            DrawOp::SetViewport { rect: Some(saved.viewport) },
        ]
    );
}

#[test]
fn setup_render_state_appends_resets() {
    let mut ops: Vec<DrawOp> = vec![DrawOp::Callback { list: 0, cmd: 0 }];
    Renderer::<u32>::setup_render_state(&mut ops);
    assert_eq!(
        ops,
        vec![
            DrawOp::Callback { list: 0, cmd: 0 },
            DrawOp::SetClip { rect: None },
            DrawOp::SetViewport { rect: None },
        ]
    );
}

#[test]
fn vertex_layout_offsets() {
    assert_eq!(vertex_field_offsets(0), (0, 8, 16));
    assert_eq!(vertex_field_offsets(3), (60, 68, 76));
}
