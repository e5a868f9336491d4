use bevy_egui::agent::{
    is_macos_user_agent, is_mobile_safari_user_agent, is_mobile_user_agent, text_agent_input,
    text_agent_sends_backspace,
};
use bevy_egui::input::{context_is_focused, event_target, FileDragAndDropInput, FileDropState};
use bevy_egui::output::{any_needs_redraw, cursor_or_default, egui_to_winit_cursor_icon, SystemCursorIcon};
use bevy_egui::settings::{EguiGlobalSettings, EguiInputSystemSettings};

const IPHONE_SAFARI: &str = "Mozilla/5.0 (iPhone; CPU iPhone OS 17_0 like Mac OS X) AppleWebKit/605.1.15 (KHTML, like Gecko) Version/17.0 Mobile/15E148 Safari/604.1";
const DESKTOP_FIREFOX: &str = "Mozilla/5.0 (X11; Linux x86_64; rv:120.0) Gecko/20100101 Firefox/120.0";
const ANDROID_CHROME: &str = "Mozilla/5.0 (Linux; Android 14) AppleWebKit/537.36 (KHTML, like Gecko) Chrome/120.0 Mobile Safari/537.36";

#[test]
fn user_agents() {
    assert!(is_mobile_user_agent(IPHONE_SAFARI));
    assert!(is_mobile_user_agent(ANDROID_CHROME));
    assert!(!is_mobile_user_agent(DESKTOP_FIREFOX));
    assert!(is_mobile_safari_user_agent(IPHONE_SAFARI));
    assert!(!is_mobile_safari_user_agent(ANDROID_CHROME));
    assert!(!is_mobile_safari_user_agent(""));
    assert!(is_macos_user_agent(IPHONE_SAFARI));
    assert!(is_macos_user_agent("MACINTOSH"));
    assert!(!is_macos_user_agent(DESKTOP_FIREFOX));
    assert!(!is_macos_user_agent("ma"));
}

#[test]
fn settings_default_to_everything_on() {
    let s = EguiInputSystemSettings::default();
    assert!(s.run_write_keyboard_input_events_system && s.run_write_ime_events_system);
    assert!(s.run_write_web_clipboard_events_system);
    let g = EguiGlobalSettings::default();
    assert!(g.enable_focused_non_window_context_updates);
    assert_eq!(g.input_system_settings, s);
}

#[test]
fn cursor_icons() {
    assert_eq!(egui_to_winit_cursor_icon(egui::CursorIcon::PointingHand), Some(SystemCursorIcon::Pointer));
    assert_eq!(egui_to_winit_cursor_icon(egui::CursorIcon::ResizeNeSw), Some(SystemCursorIcon::NeswResize));
    assert_eq!(egui_to_winit_cursor_icon(egui::CursorIcon::ResizeRow), Some(SystemCursorIcon::RowResize));
    assert_eq!(egui_to_winit_cursor_icon(egui::CursorIcon::None), None);
}

#[test]
fn file_drag_and_drop() {
    let mut s = FileDropState { hovered_files: vec![], dropped_files: vec![] };
    s.apply(FileDragAndDropInput::HoveredFile("a.png".to_string()));
    s.apply(FileDragAndDropInput::HoveredFile("b.png".to_string()));
    assert_eq!(s.hovered_files, vec!["a.png".to_string(), "b.png".to_string()]);
    s.apply(FileDragAndDropInput::DroppedFile("a.png".to_string()));
    assert!(s.hovered_files.is_empty());
    assert_eq!(s.dropped_files, vec!["a.png".to_string()]);
    s.apply(FileDragAndDropInput::HoveredFile("c.png".to_string()));
    s.apply(FileDragAndDropInput::HoveredFileCanceled);
    assert!(s.hovered_files.is_empty());
    assert_eq!(s.dropped_files.len(), 1);
}

#[test]
fn focus_and_routing() {
    assert!(context_is_focused(Some(4), 4, Some(false)));
    assert!(!context_is_focused(Some(4), 5, Some(true)));
    assert!(context_is_focused(None, 5, Some(true)));
    assert!(!context_is_focused(None, 5, None));
    assert_eq!(event_target(Some(9), 1), 9);
    assert_eq!(event_target(None, 1), 1);
}

#[test]
fn text_agent_decisions() {
    assert_eq!(text_agent_input("é".to_string(), false), Some("é".to_string()));
    assert_eq!(text_agent_input("é".to_string(), true), None);
    assert_eq!(text_agent_input(String::new(), false), None);
    assert!(text_agent_sends_backspace(false, 8, "Backspace"));
    assert!(!text_agent_sends_backspace(true, 8, "Backspace"));
    assert!(!text_agent_sends_backspace(false, 229, "Backspace"));
    assert!(!text_agent_sends_backspace(false, 46, "Delete"));
    assert!(!text_agent_sends_backspace(false, 8, "Backspac"));
}

#[test]
fn cursor_fallback_and_redraw() {
    assert_eq!(cursor_or_default(egui::CursorIcon::None), SystemCursorIcon::Default);
    assert_eq!(cursor_or_default(egui::CursorIcon::Text), SystemCursorIcon::Text);
    assert!(!any_needs_redraw(&vec![]));
    assert!(!any_needs_redraw(&vec![false, false]));
    assert!(any_needs_redraw(&vec![false, true, false]));
}
