use bevy_egui::input::{
    keyboard_event_outcome, keyboard_outcome, modifier_of, ClipboardAction, EguiContextImeState,
    EguiWantsInput, ImeInput, ModifierKey, ModifierKeysState,
};
use bevy_egui::keys::{bevy_to_egui_key, bevy_to_egui_physical_key, KeyCode, LogicalKey};

#[test]
fn modifiers_map_command_by_platform() {
    let mut s = ModifierKeysState::new(false);
    s.update(ModifierKey::Control, true);
    let m = s.to_egui_modifiers();
    assert!(m.ctrl && m.command && !m.mac_cmd && !m.alt && !m.shift);
    let mut mac = ModifierKeysState::new(true);
    mac.update(ModifierKey::Meta, true);
    let m = mac.to_egui_modifiers();
    assert!(m.command && m.mac_cmd && !m.ctrl);
    mac.reset();
    assert!(!mac.win && mac.is_macos);
}

#[test]
fn text_input_allowed_with_altgr_off_macos() {
    let mut s = ModifierKeysState::new(false);
    assert!(s.text_input_is_allowed());
    s.update(ModifierKey::Control, true);
    assert!(!s.text_input_is_allowed());
    s.update(ModifierKey::Alt, true);
    assert!(s.text_input_is_allowed());
    let mut mac = ModifierKeysState::new(true);
    mac.update(ModifierKey::Control, true);
    mac.update(ModifierKey::Alt, true);
    assert!(!mac.text_input_is_allowed());
}

#[test]
fn wants_input_flags_merge() {
    let mut w = EguiWantsInput::default();
    assert!(!w.wants_any_input());
    w.merge(&EguiWantsInput::new(false, false, false, false, true));
    assert!(w.wants_any_pointer_input() && w.wants_any_keyboard_input());
    w.reset();
    w.merge(&EguiWantsInput::new(false, false, false, true, false));
    assert!(!w.wants_any_pointer_input() && w.wants_any_keyboard_input() && w.wants_any_input());
    w.merge(&EguiWantsInput::new(true, false, false, false, false));
    assert!(w.is_pointer_over_area() && w.wants_keyboard_input());
    let ctx = egui::Context::default();
    w.reset();
    w.merge_context(&ctx);
    assert!(!w.is_using_pointer());
}

#[test]
fn ime_sequence() {
    let mut s = EguiContextImeState { has_sent_ime_enabled: false };
    assert_eq!(s.handle(ImeInput::Enabled), vec![egui::ImeEvent::Enabled]);
    assert_eq!(s.handle(ImeInput::Enabled), vec![]);
    assert_eq!(
        s.handle(ImeInput::Preedit("ka".to_string())),
        vec![egui::ImeEvent::Preedit("ka".to_string())]
    );
    assert_eq!(
        s.handle(ImeInput::Commit("か".to_string())),
        vec![egui::ImeEvent::Commit("か".to_string()), egui::ImeEvent::Disabled]
    );
    assert!(!s.has_sent_ime_enabled);
    // The next composition announces the input method again.
    assert_eq!(
        s.handle(ImeInput::Preedit("a".to_string())),
        vec![egui::ImeEvent::Enabled, egui::ImeEvent::Preedit("a".to_string())]
    );
    assert_eq!(s.handle(ImeInput::Disabled), vec![egui::ImeEvent::Disabled]);
    assert!(!s.has_sent_ime_enabled);
    // Turning off what was never announced sends nothing.
    assert_eq!(s.handle(ImeInput::Disabled), vec![]);
    assert_eq!(
        s.handle(ImeInput::Commit("b".to_string())),
        vec![egui::ImeEvent::Commit("b".to_string())]
    );
}

#[test]
fn keyboard_text_key_and_clipboard() {
    let plain = ModifierKeysState::new(false);
    let r = keyboard_outcome(
        &plain,
        LogicalKey::Character("a".to_string()),
        true,
        Some(egui::Key::A),
        Some(egui::Key::A),
        true,
    );
    assert_eq!(r.text, Some("a".to_string()));
    assert_eq!(r.key, Some((egui::Key::A, Some(egui::Key::A))));
    assert_eq!(r.clipboard, None);

    let r = keyboard_outcome(&plain, LogicalKey::Space, true, Some(egui::Key::Space), None, true);
    assert_eq!(r.text, Some(" ".to_string()));

    let r = keyboard_outcome(
        &plain,
        LogicalKey::Character("\u{7f}".to_string()),
        true,
        None,
        Some(egui::Key::Delete),
        true,
    );
    assert_eq!(r.text, None);
    assert_eq!(r.key, Some((egui::Key::Delete, Some(egui::Key::Delete))));

    let mut ctrl = ModifierKeysState::new(false);
    ctrl.update(ModifierKey::Control, true);
    let r = keyboard_outcome(
        &ctrl,
        LogicalKey::Character("v".to_string()),
        true,
        Some(egui::Key::V),
        Some(egui::Key::V),
        true,
    );
    assert_eq!(r.text, None);
    assert_eq!(r.clipboard, Some(ClipboardAction::Paste));
    let r = keyboard_outcome(&ctrl, LogicalKey::Other, false, Some(egui::Key::C), None, true);
    assert_eq!(r.clipboard, None);
    let r = keyboard_outcome(&ctrl, LogicalKey::Other, true, Some(egui::Key::X), None, false);
    assert_eq!(r.clipboard, None);
    let r = keyboard_outcome(&ctrl, LogicalKey::Other, true, None, None, true);
    assert!(r.key.is_none() && r.clipboard.is_none());
}

#[test]
fn key_event_uses_logical_then_physical_key() {
    let plain = ModifierKeysState::new(false);
    let r = keyboard_event_outcome(&plain, LogicalKey::Character("a".to_string()), KeyCode::KeyQ, true, false);
    assert_eq!(r.text, Some("a".to_string()));
    assert_eq!(r.key, Some((egui::Key::A, Some(egui::Key::Q))));
    // A character with no GUI key falls back on the physical key.
    let r = keyboard_event_outcome(&plain, LogicalKey::Character("ж".to_string()), KeyCode::KeyC, true, true);
    assert_eq!(r.text, Some("ж".to_string()));
    assert_eq!(r.key, Some((egui::Key::C, Some(egui::Key::C))));
    let mut ctrl = ModifierKeysState::new(false);
    ctrl.update(ModifierKey::Control, true);
    let r = keyboard_event_outcome(&ctrl, LogicalKey::Character("ж".to_string()), KeyCode::KeyC, true, true);
    assert_eq!(r.text, None);
    assert_eq!(r.clipboard, Some(ClipboardAction::Copy));
    let r = keyboard_event_outcome(&plain, LogicalKey::Dead, KeyCode::Other, true, true);
    assert!(r.key.is_none());
}

#[test]
fn key_tables() {
    assert_eq!(bevy_to_egui_physical_key(&KeyCode::NumpadEnter), Some(egui::Key::Enter));
    assert_eq!(bevy_to_egui_physical_key(&KeyCode::Numpad7), Some(egui::Key::Num7));
    assert_eq!(bevy_to_egui_physical_key(&KeyCode::NumpadAdd), Some(egui::Key::Plus));
    assert_eq!(bevy_to_egui_physical_key(&KeyCode::BracketLeft), Some(egui::Key::OpenBracket));
    assert_eq!(bevy_to_egui_physical_key(&KeyCode::Other), None);
    assert_eq!(bevy_to_egui_key(&LogicalKey::F20), Some(egui::Key::F20));
    assert_eq!(bevy_to_egui_key(&LogicalKey::Character("+".to_string())), Some(egui::Key::Plus));
    assert_eq!(bevy_to_egui_key(&LogicalKey::Character("Z".to_string())), Some(egui::Key::Z));
    assert_eq!(bevy_to_egui_key(&LogicalKey::Unidentified), None);
    assert_eq!(bevy_to_egui_key(&LogicalKey::Shift), None);
    assert_eq!(modifier_of(&LogicalKey::Meta), Some(ModifierKey::Meta));
    assert_eq!(modifier_of(&LogicalKey::Enter), None);
}
