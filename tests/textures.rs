use bevy_egui::textures::{EguiTextureId, EguiUserTextures};

#[test]
fn user_texture_ids_start_at_zero_and_grow() {
    let mut t = EguiUserTextures::new();
    assert_eq!(t.add_image(10), egui::TextureId::User(0));
    assert_eq!(t.add_image(11), egui::TextureId::User(1));
    assert_eq!(t.add_image(12), egui::TextureId::User(2));
}

#[test]
fn adding_an_image_twice_keeps_its_id() {
    let mut t = EguiUserTextures::default();
    assert_eq!(t.add_image(7), egui::TextureId::User(0));
    assert_eq!(t.add_image(7), egui::TextureId::User(0));
    assert_eq!(t.add_image(8), egui::TextureId::User(1));
}

#[test]
fn removed_ids_are_reused_most_recent_first() {
    let mut t = EguiUserTextures::new();
    t.add_image(1);
    t.add_image(2);
    t.add_image(3);
    assert_eq!(t.remove_image(&1), Some(egui::TextureId::User(0)));
    assert_eq!(t.remove_image(&3), Some(egui::TextureId::User(2)));
    assert_eq!(t.image_id(&1), None);
    assert_eq!(t.add_image(4), egui::TextureId::User(2));
    assert_eq!(t.add_image(5), egui::TextureId::User(0));
    assert_eq!(t.add_image(6), egui::TextureId::User(3));
}

#[test]
fn removing_an_unknown_image_changes_nothing() {
    let mut t = EguiUserTextures::new();
    t.add_image(1);
    assert_eq!(t.remove_image(&9), None);
    assert_eq!(t.image_id(&1), Some(egui::TextureId::User(0)));
    assert_eq!(t.add_image(2), egui::TextureId::User(1));
}

#[test]
fn egui_texture_ids_map_to_renderer_ids() {
    assert_eq!(
        EguiTextureId::from_egui(5, egui::TextureId::Managed(3)),
        EguiTextureId::Managed(5, 3)
    );
    assert_eq!(
        EguiTextureId::from_egui(5, egui::TextureId::User(3)),
        EguiTextureId::User(3)
    );
}
