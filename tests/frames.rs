use bevy_egui::batch::{
    primitives_fit, ClippedPrimitiveInput, EguiRenderData, MeshInput, PrimitiveInput,
};
use bevy_egui::input::{
    focus_change, EguiContextPointerTouchId, FocusChange, PointerEmulation, TouchInputPhase,
};
use bevy_egui::keys::{pointer_button_of, MouseButton};
use bevy_egui::output::{copies_text, needs_redraw, open_url_target};
use bevy_egui::rect::PixelRect;

fn mesh(clip: PixelRect, vertex_bytes: usize, indices: Vec<u32>) -> ClippedPrimitiveInput {
    ClippedPrimitiveInput {
        clip_rect: clip,
        primitive: PrimitiveInput::Mesh(MeshInput {
            vertex_bytes: vec![7; vertex_bytes],
            indices,
            texture_id: egui::TextureId::Managed(0),
        }),
    }
}

#[test]
fn primitives_fit_rejects_malformed_meshes() {
    let full = PixelRect::new(0, 0, 10, 10);
    let off = PixelRect::new(20, 20, 30, 30);
    let target = PixelRect::from_size(10, 10);
    assert!(primitives_fit(&vec![mesh(full, 60, vec![0, 1, 2])], target));
    assert!(!primitives_fit(&vec![mesh(full, 61, vec![0])], target));
    // Bytes that are not whole vertices are refused even off the target.
    assert!(!primitives_fit(&vec![mesh(off, 41, vec![0])], target));
    // An index past the mesh's vertices is passed on, as the GPU gets it.
    assert!(primitives_fit(&vec![mesh(full, 60, vec![0, 1, 3])], target));
    // A shifted index must still fit 32 bits.
    assert!(primitives_fit(&vec![mesh(full, 20, vec![0]), mesh(full, 20, vec![u32::MAX - 1])], target));
    assert!(!primitives_fit(&vec![mesh(full, 20, vec![0]), mesh(full, 20, vec![u32::MAX])], target));
    // Off the target, nothing is shifted.
    assert!(primitives_fit(&vec![mesh(full, 20, vec![0]), mesh(off, 20, vec![u32::MAX])], target));
    assert!(primitives_fit(&vec![], PixelRect::from_size(0, 0)));
}

#[test]
fn render_data_drops_targets_not_seen_in_a_frame() {
    let full = PixelRect::new(0, 0, 10, 10);
    let prims = vec![mesh(full, 60, vec![0, 1, 2])];
    let mut data = EguiRenderData::new();
    let a = data.entry(1);
    assert_eq!(a, 0);
    data.targets[a].1.prepare(1, PixelRect::from_size(10, 10), true, &prims);
    let b = data.entry(2);
    assert_eq!(b, 1);
    assert_eq!(data.entry(1), 0);
    data.begin_frame();
    assert_eq!(data.targets.len(), 1);
    assert_eq!(data.targets[0].0, 1);
    assert!(!data.targets[0].1.keep);
    assert_eq!(data.targets[0].1.index_data, vec![0, 1, 2]);
    data.begin_frame();
    assert!(data.targets.is_empty());
}

#[test]
fn one_touch_drives_the_pointer() {
    let mut t = EguiContextPointerTouchId { pointer_touch_id: None };
    assert_eq!(
        t.emulate(5, TouchInputPhase::Started),
        vec![PointerEmulation::Moved, PointerEmulation::Pressed]
    );
    assert_eq!(t.pointer_touch_id, Some(5));
    assert_eq!(t.emulate(6, TouchInputPhase::Started), vec![]);
    assert_eq!(t.emulate(5, TouchInputPhase::Moved), vec![PointerEmulation::Moved]);
    assert_eq!(
        t.emulate(5, TouchInputPhase::Ended),
        vec![PointerEmulation::Released, PointerEmulation::Gone]
    );
    assert_eq!(t.pointer_touch_id, None);
    t.emulate(6, TouchInputPhase::Started);
    assert_eq!(t.emulate(6, TouchInputPhase::Canceled), vec![PointerEmulation::Gone]);
    assert_eq!(TouchInputPhase::Moved.to_egui(), egui::TouchPhase::Move);
    assert_eq!(TouchInputPhase::Canceled.to_egui(), egui::TouchPhase::Cancel);
}

#[test]
fn output_decisions() {
    assert_eq!(open_url_target(true, &Some("frame".to_string())), "_blank");
    assert_eq!(open_url_target(false, &Some("frame".to_string())), "frame");
    assert_eq!(open_url_target(false, &None), "_self");
    assert!(copies_text("x"));
    assert!(!copies_text(""));
    assert!(needs_redraw(true, false, true));
    assert!(needs_redraw(true, true, false));
    assert!(!needs_redraw(true, true, true));
    assert!(!needs_redraw(false, false, false));
}

#[test]
fn focus_changes_and_pointer_buttons() {
    assert_eq!(focus_change(true, true, Some(3)), FocusChange::Focus(3));
    assert_eq!(focus_change(true, true, None), FocusChange::Clear);
    assert_eq!(focus_change(true, false, Some(3)), FocusChange::Keep);
    assert_eq!(focus_change(false, true, Some(3)), FocusChange::Keep);
    assert_eq!(pointer_button_of(MouseButton::Back), Some(egui::PointerButton::Extra1));
    assert_eq!(pointer_button_of(MouseButton::Right), Some(egui::PointerButton::Secondary));
    assert_eq!(pointer_button_of(MouseButton::Other), None);
}
