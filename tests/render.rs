use bevy_egui::batch::{
    next_power_of_two, BufferGrowth, ClippedPrimitiveInput, DrawCommand, DrawPrimitive,
    EguiRenderTargetData, MeshInput, PrimitiveInput,
};
use bevy_egui::graph::{
    render_target_type_of, EguiPass, EguiRenderTargetType, RunEguiSubgraphOnEguiViewNode,
    SubGraphEgui,
};
use bevy_egui::image::{update_image_rect, ColorImage, EguiManagedTextures, TextureUpdate};
use bevy_egui::pass::{plan_pass, PassOp};
use bevy_egui::rect::PixelRect;
use bevy_egui::textures::EguiTextureId;

fn mesh(clip: PixelRect, vertices: usize, indices: Vec<u32>, tex: egui::TextureId) -> ClippedPrimitiveInput {
    let vertex_bytes: Vec<u8> = (0..vertices * 20).map(|b| (b % 251) as u8).collect();
    ClippedPrimitiveInput {
        clip_rect: clip,
        primitive: PrimitiveInput::Mesh(MeshInput { vertex_bytes, indices, texture_id: tex }),
    }
}

fn callback(clip: PixelRect) -> ClippedPrimitiveInput {
    ClippedPrimitiveInput { clip_rect: clip, primitive: PrimitiveInput::PaintCallback }
}

#[test]
fn rect_intersection_and_emptiness() {
    let a = PixelRect::new(10, 10, 0, 0);
    assert_eq!(a, PixelRect { min_x: 0, min_y: 0, max_x: 10, max_y: 10 });
    let b = PixelRect::new(5, 5, 20, 20);
    let c = a.intersect(b);
    assert_eq!(c, PixelRect { min_x: 5, min_y: 5, max_x: 10, max_y: 10 });
    assert!(!c.is_empty());
    assert_eq!(c.width(), 5);
    assert_eq!(c.height(), 5);
    let d = a.intersect(PixelRect::new(10, 0, 20, 5));
    assert!(d.is_empty());
}

#[test]
fn next_power_of_two_values() {
    assert_eq!(next_power_of_two(0), 1);
    assert_eq!(next_power_of_two(1), 1);
    assert_eq!(next_power_of_two(5), 8);
    assert_eq!(next_power_of_two(64), 64);
    assert_eq!(next_power_of_two(65), 128);
}

#[test]
fn batching_shifts_indices_and_drops_offscreen_primitives() {
    let full = PixelRect::new(0, 0, 100, 100);
    let offscreen = PixelRect::new(200, 200, 300, 300);
    let prims = vec![
        mesh(full, 3, vec![0, 1, 2], egui::TextureId::Managed(0)),
        mesh(offscreen, 4, vec![0, 1, 2, 3], egui::TextureId::Managed(1)),
        callback(full),
        mesh(full, 4, vec![0, 1, 2, 2, 3, 0], egui::TextureId::User(9)),
    ];
    let mut data = EguiRenderTargetData::new();
    let growth = data.prepare(42, PixelRect::from_size(100, 100), true, &prims);
    assert!(data.keep);
    assert_eq!(data.vertex_data.len(), 7 * 20);
    assert_eq!(data.index_data, vec![0, 1, 2, 3, 4, 5, 5, 6, 3]);
    assert_eq!(
        data.draw_commands,
        vec![
            DrawCommand {
                clip_rect: full,
                primitive: DrawPrimitive::Egui {
                    vertices_count: 3,
                    egui_texture: EguiTextureId::Managed(42, 0)
                },
            },
            DrawCommand { clip_rect: full, primitive: DrawPrimitive::PaintCallback { source: 2 } },
            DrawCommand {
                clip_rect: full,
                primitive: DrawPrimitive::Egui { vertices_count: 6, egui_texture: EguiTextureId::User(9) },
            },
        ]
    );
    assert_eq!(data.postponed_updates, vec![2]);
    assert_eq!(
        growth,
        BufferGrowth { vertex_buffer_capacity: Some(256), index_buffer_capacity: Some(64) }
    );
    assert_eq!(data.vertex_buffer_capacity, 256);
    assert_eq!(data.index_buffer_capacity, 64);

    // A smaller frame keeps the buffers.
    let prims = vec![mesh(full, 3, vec![0, 1, 2], egui::TextureId::Managed(0))];
    let growth = data.prepare(42, PixelRect::from_size(100, 100), true, &prims);
    assert_eq!(growth, BufferGrowth { vertex_buffer_capacity: None, index_buffer_capacity: None });
    assert_eq!(data.vertex_buffer_capacity, 256);
    assert_eq!(data.index_data, vec![0, 1, 2]);
}

#[test]
fn zero_sized_target_keeps_previous_data() {
    let full = PixelRect::new(0, 0, 100, 100);
    let mut data = EguiRenderTargetData::new();
    data.prepare(1, PixelRect::from_size(100, 100), true, &vec![mesh(full, 3, vec![0, 1, 2], egui::TextureId::Managed(0))]);
    data.keep = false;
    let growth = data.prepare(1, PixelRect::from_size(0, 100), false, &vec![callback(full)]);
    assert!(data.keep);
    assert_eq!(growth, BufferGrowth { vertex_buffer_capacity: None, index_buffer_capacity: None });
    assert_eq!(data.index_data, vec![0, 1, 2]);
    assert_eq!(data.draw_commands.len(), 1);
}

#[test]
fn pass_sets_scissor_only_on_change_and_resets_after_callbacks() {
    let a = PixelRect::new(0, 0, 50, 50);
    let b = PixelRect::new(10, 10, 80, 80);
    let off = PixelRect::new(500, 500, 600, 600);
    let egui_cmd = |clip, n| DrawCommand {
        clip_rect: clip,
        primitive: DrawPrimitive::Egui { vertices_count: n, egui_texture: EguiTextureId::User(0) },
    };
    let commands = vec![
        egui_cmd(a, 3),
        egui_cmd(a, 6),
        egui_cmd(off, 3),
        DrawCommand { clip_rect: b, primitive: DrawPrimitive::PaintCallback { source: 7 } },
        egui_cmd(b, 3),
        egui_cmd(b, 3),
    ];
    let ready = vec![true, true, true, true, true, false];
    let ops = plan_pass(&commands, &ready, PixelRect::from_size(60, 60));
    let b_clipped = PixelRect { min_x: 10, min_y: 10, max_x: 60, max_y: 60 };
    assert_eq!(
        ops,
        vec![
            PassOp::Reset,
            PassOp::SetScissor(a),
            PassOp::DrawIndexed { command: 0, start: 0, end: 3 },
            PassOp::DrawIndexed { command: 1, start: 3, end: 9 },
            PassOp::SetScissor(b_clipped),
            PassOp::PaintCallback { command: 3 },
            PassOp::Reset,
            PassOp::SetScissor(b_clipped),
            PassOp::DrawIndexed { command: 4, start: 9, end: 12 },
        ]
    );
}

#[test]
fn graph_labels() {
    let p = EguiPass::from_window_entity(3, 1);
    assert_eq!(p.render_target_type, EguiRenderTargetType::Window);
    assert_eq!((p.entity_index, p.entity_generation), (3, 1));
    let q = EguiPass::from_render_to_image_entity(3, 1);
    assert_eq!(q.render_target_type, EguiRenderTargetType::Image);
    assert_ne!(p, q);
    assert_eq!(render_target_type_of(true, false), Some(EguiRenderTargetType::Window));
    assert_eq!(render_target_type_of(false, true), Some(EguiRenderTargetType::Image));
    assert_eq!(render_target_type_of(true, true), None);
    assert_eq!(render_target_type_of(false, false), None);
    assert_eq!(RunEguiSubgraphOnEguiViewNode.subgraph_for(true), Some(SubGraphEgui));
    assert_eq!(RunEguiSubgraphOnEguiViewNode.subgraph_for(false), None);
}

#[test]
fn image_rect_update_copies_the_block() {
    let mut dest = ColorImage::filled(4, 3, [0, 0, 0, 255]);
    let src = ColorImage { width: 2, height: 2, pixels: vec![[1; 4], [2; 4], [3; 4], [4; 4]] };
    update_image_rect(&mut dest, 1, 1, &src);
    let z = [0, 0, 0, 255];
    assert_eq!(
        dest.pixels,
        vec![z, z, z, z, z, [1; 4], [2; 4], z, z, [3; 4], [4; 4], z]
    );
}

#[test]
fn managed_textures_full_and_partial_updates() {
    let mut store = EguiManagedTextures::new();
    let full = ColorImage::filled(3, 2, [9; 4]);
    assert_eq!(store.set(1, egui::TextureId::User(0), None, full), TextureUpdate::Ignored);
    assert!(store.get(1, 0).is_none());
    let patch = ColorImage::filled(1, 1, [5; 4]);
    assert_eq!(store.set(1, egui::TextureId::Managed(0), Some((0, 0)), patch), TextureUpdate::Missing);
    let full = ColorImage::filled(3, 2, [9; 4]);
    assert_eq!(store.set(1, egui::TextureId::Managed(0), None, full), TextureUpdate::Replaced);
    let patch = ColorImage::filled(1, 1, [5; 4]);
    assert_eq!(store.set(1, egui::TextureId::Managed(0), Some((2, 1)), patch), TextureUpdate::Patched);
    assert_eq!(store.get(1, 0).unwrap().pixels, vec![[9; 4], [9; 4], [9; 4], [9; 4], [9; 4], [5; 4]]);
    let patch = ColorImage::filled(2, 1, [6; 4]);
    assert_eq!(store.set(1, egui::TextureId::Managed(0), Some((2, 0)), patch), TextureUpdate::OutOfBounds);
    assert_eq!(store.get(1, 0).unwrap().pixels[2], [9; 4]);
    // The same texture id of another entity is another texture.
    assert!(store.get(2, 0).is_none());
    assert!(store.free(1, egui::TextureId::User(0)).is_none());
    assert!(store.free(1, egui::TextureId::Managed(0)).is_some());
    assert!(store.get(1, 0).is_none());
}

#[test]
fn camera_viewport_offsets_clip_and_cull() {
    // The right half of a 200 x 100 window.
    let viewport = PixelRect::new(100, 0, 200, 100);
    let left = PixelRect::new(0, 0, 100, 100);
    let straddling = PixelRect::new(50, 10, 150, 90);
    let prims = vec![
        mesh(left, 3, vec![0, 1, 2], egui::TextureId::Managed(0)),
        mesh(straddling, 3, vec![0, 1, 2], egui::TextureId::Managed(1)),
    ];
    let mut data = EguiRenderTargetData::new();
    data.prepare(7, viewport, true, &prims);
    assert_eq!(data.index_data, vec![0, 1, 2]);
    assert_eq!(data.draw_commands.len(), 1);
    assert_eq!(data.draw_commands[0].clip_rect, straddling);

    let ops = plan_pass(&data.draw_commands, &vec![true], viewport);
    assert_eq!(
        ops,
        vec![
            PassOp::Reset,
            PassOp::SetScissor(PixelRect { min_x: 100, min_y: 10, max_x: 150, max_y: 90 }),
            PassOp::DrawIndexed { command: 0, start: 0, end: 3 },
        ]
    );
}

#[test]
fn disjoint_rects_intersect_without_inverting() {
    let r = PixelRect::new(0, 0, 10, 10).intersect(PixelRect::new(20, 30, 40, 50));
    assert_eq!(r, PixelRect { min_x: 10, min_y: 10, max_x: 10, max_y: 10 });
    assert!(r.is_empty());
    assert_eq!((r.width(), r.height()), (0, 0));
}
