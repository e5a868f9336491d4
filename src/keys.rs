//! The host's keys, and the GUI keys they stand for.
use vstd::prelude::*;

verus! {

/// The GUI library's logical keys.
#[verifier::external_type_specification]
pub struct ExKey(egui::Key);

/// The GUI key of a name such as `"A"`, `"Enter"` or `"+"`, if it has one.
pub uninterp spec fn key_of_name(name: Seq<char>) -> Option<egui::Key>;

/// Relies on egui::Key::from_name: the key, if any, whose name or symbol is `name`.
#[verifier::external_body]
fn key_from_name(name: &str) -> (r: Option<egui::Key>)
    ensures
        r == key_of_name(name@),
{
    egui::Key::from_name(name)
}

/// A key of the host's keyboard, by its physical place. Keys that have no GUI
/// key are `Other`.
#[derive(Debug, Clone, Copy, PartialEq, Eq, Hash, Structural)]
pub enum KeyCode {
    ArrowDown,
    ArrowLeft,
    ArrowRight,
    ArrowUp,
    Escape,
    Tab,
    Backspace,
    Enter,
    NumpadEnter,
    Insert,
    Delete,
    Home,
    End,
    PageUp,
    PageDown,
    Space,
    Comma,
    Period,
    Semicolon,
    Backslash,
    Slash,
    NumpadDivide,
    BracketLeft,
    BracketRight,
    Backquote,
    Cut,
    Copy,
    Paste,
    Minus,
    NumpadSubtract,
    NumpadAdd,
    Equal,
    Digit0,
    Numpad0,
    Digit1,
    Numpad1,
    Digit2,
    Numpad2,
    Digit3,
    Numpad3,
    Digit4,
    Numpad4,
    Digit5,
    Numpad5,
    Digit6,
    Numpad6,
    Digit7,
    Numpad7,
    Digit8,
    Numpad8,
    Digit9,
    Numpad9,
    KeyA,
    KeyB,
    KeyC,
    KeyD,
    KeyE,
    KeyF,
    KeyG,
    KeyH,
    KeyI,
    KeyJ,
    KeyK,
    KeyL,
    KeyM,
    KeyN,
    KeyO,
    KeyP,
    KeyQ,
    KeyR,
    KeyS,
    KeyT,
    KeyU,
    KeyV,
    KeyW,
    KeyX,
    KeyY,
    KeyZ,
    F1,
    F2,
    F3,
    F4,
    F5,
    F6,
    F7,
    F8,
    F9,
    F10,
    F11,
    F12,
    F13,
    F14,
    F15,
    F16,
    F17,
    F18,
    F19,
    F20,
    Other,
}

/// The GUI key at a physical place: numpad keys count as their main-block
/// counterparts.
pub open spec fn physical_key_of(key: KeyCode) -> Option<egui::Key> {
    match key {
        KeyCode::ArrowDown => Some(egui::Key::ArrowDown),
        KeyCode::ArrowLeft => Some(egui::Key::ArrowLeft),
        KeyCode::ArrowRight => Some(egui::Key::ArrowRight),
        KeyCode::ArrowUp => Some(egui::Key::ArrowUp),
        KeyCode::Escape => Some(egui::Key::Escape),
        KeyCode::Tab => Some(egui::Key::Tab),
        KeyCode::Backspace => Some(egui::Key::Backspace),
        KeyCode::Enter => Some(egui::Key::Enter),
        KeyCode::NumpadEnter => Some(egui::Key::Enter),
        KeyCode::Insert => Some(egui::Key::Insert),
        KeyCode::Delete => Some(egui::Key::Delete),
        KeyCode::Home => Some(egui::Key::Home),
        KeyCode::End => Some(egui::Key::End),
        KeyCode::PageUp => Some(egui::Key::PageUp),
        KeyCode::PageDown => Some(egui::Key::PageDown),
        KeyCode::Space => Some(egui::Key::Space),
        KeyCode::Comma => Some(egui::Key::Comma),
        KeyCode::Period => Some(egui::Key::Period),
        KeyCode::Semicolon => Some(egui::Key::Semicolon),
        KeyCode::Backslash => Some(egui::Key::Backslash),
        KeyCode::Slash => Some(egui::Key::Slash),
        KeyCode::NumpadDivide => Some(egui::Key::Slash),
        KeyCode::BracketLeft => Some(egui::Key::OpenBracket),
        KeyCode::BracketRight => Some(egui::Key::CloseBracket),
        KeyCode::Backquote => Some(egui::Key::Backtick),
        KeyCode::Cut => Some(egui::Key::Cut),
        KeyCode::Copy => Some(egui::Key::Copy),
        KeyCode::Paste => Some(egui::Key::Paste),
        KeyCode::Minus => Some(egui::Key::Minus),
        KeyCode::NumpadSubtract => Some(egui::Key::Minus),
        KeyCode::NumpadAdd => Some(egui::Key::Plus),
        KeyCode::Equal => Some(egui::Key::Equals),
        KeyCode::Digit0 => Some(egui::Key::Num0),
        KeyCode::Numpad0 => Some(egui::Key::Num0),
        KeyCode::Digit1 => Some(egui::Key::Num1),
        KeyCode::Numpad1 => Some(egui::Key::Num1),
        KeyCode::Digit2 => Some(egui::Key::Num2),
        KeyCode::Numpad2 => Some(egui::Key::Num2),
        KeyCode::Digit3 => Some(egui::Key::Num3),
        KeyCode::Numpad3 => Some(egui::Key::Num3),
        KeyCode::Digit4 => Some(egui::Key::Num4),
        KeyCode::Numpad4 => Some(egui::Key::Num4),
        KeyCode::Digit5 => Some(egui::Key::Num5),
        KeyCode::Numpad5 => Some(egui::Key::Num5),
        KeyCode::Digit6 => Some(egui::Key::Num6),
        KeyCode::Numpad6 => Some(egui::Key::Num6),
        KeyCode::Digit7 => Some(egui::Key::Num7),
        KeyCode::Numpad7 => Some(egui::Key::Num7),
        KeyCode::Digit8 => Some(egui::Key::Num8),
        KeyCode::Numpad8 => Some(egui::Key::Num8),
        KeyCode::Digit9 => Some(egui::Key::Num9),
        KeyCode::Numpad9 => Some(egui::Key::Num9),
        KeyCode::KeyA => Some(egui::Key::A),
        KeyCode::KeyB => Some(egui::Key::B),
        KeyCode::KeyC => Some(egui::Key::C),
        KeyCode::KeyD => Some(egui::Key::D),
        KeyCode::KeyE => Some(egui::Key::E),
        KeyCode::KeyF => Some(egui::Key::F),
        KeyCode::KeyG => Some(egui::Key::G),
        KeyCode::KeyH => Some(egui::Key::H),
        KeyCode::KeyI => Some(egui::Key::I),
        KeyCode::KeyJ => Some(egui::Key::J),
        KeyCode::KeyK => Some(egui::Key::K),
        KeyCode::KeyL => Some(egui::Key::L),
        KeyCode::KeyM => Some(egui::Key::M),
        KeyCode::KeyN => Some(egui::Key::N),
        KeyCode::KeyO => Some(egui::Key::O),
        KeyCode::KeyP => Some(egui::Key::P),
        KeyCode::KeyQ => Some(egui::Key::Q),
        KeyCode::KeyR => Some(egui::Key::R),
        KeyCode::KeyS => Some(egui::Key::S),
        KeyCode::KeyT => Some(egui::Key::T),
        KeyCode::KeyU => Some(egui::Key::U),
        KeyCode::KeyV => Some(egui::Key::V),
        KeyCode::KeyW => Some(egui::Key::W),
        KeyCode::KeyX => Some(egui::Key::X),
        KeyCode::KeyY => Some(egui::Key::Y),
        KeyCode::KeyZ => Some(egui::Key::Z),
        KeyCode::F1 => Some(egui::Key::F1),
        KeyCode::F2 => Some(egui::Key::F2),
        KeyCode::F3 => Some(egui::Key::F3),
        KeyCode::F4 => Some(egui::Key::F4),
        KeyCode::F5 => Some(egui::Key::F5),
        KeyCode::F6 => Some(egui::Key::F6),
        KeyCode::F7 => Some(egui::Key::F7),
        KeyCode::F8 => Some(egui::Key::F8),
        KeyCode::F9 => Some(egui::Key::F9),
        KeyCode::F10 => Some(egui::Key::F10),
        KeyCode::F11 => Some(egui::Key::F11),
        KeyCode::F12 => Some(egui::Key::F12),
        KeyCode::F13 => Some(egui::Key::F13),
        KeyCode::F14 => Some(egui::Key::F14),
        KeyCode::F15 => Some(egui::Key::F15),
        KeyCode::F16 => Some(egui::Key::F16),
        KeyCode::F17 => Some(egui::Key::F17),
        KeyCode::F18 => Some(egui::Key::F18),
        KeyCode::F19 => Some(egui::Key::F19),
        KeyCode::F20 => Some(egui::Key::F20),
        KeyCode::Other => None,
    }
}

/// The GUI key at the physical place of a host key.
pub fn bevy_to_egui_physical_key(key: &KeyCode) -> (r: Option<egui::Key>)
    ensures
        r == physical_key_of(*key),
{
    let k = match key {
        KeyCode::ArrowDown => egui::Key::ArrowDown,
        KeyCode::ArrowLeft => egui::Key::ArrowLeft,
        KeyCode::ArrowRight => egui::Key::ArrowRight,
        KeyCode::ArrowUp => egui::Key::ArrowUp,
        KeyCode::Escape => egui::Key::Escape,
        KeyCode::Tab => egui::Key::Tab,
        KeyCode::Backspace => egui::Key::Backspace,
        KeyCode::Enter => egui::Key::Enter,
        KeyCode::NumpadEnter => egui::Key::Enter,
        KeyCode::Insert => egui::Key::Insert,
        KeyCode::Delete => egui::Key::Delete,
        KeyCode::Home => egui::Key::Home,
        KeyCode::End => egui::Key::End,
        KeyCode::PageUp => egui::Key::PageUp,
        KeyCode::PageDown => egui::Key::PageDown,
        KeyCode::Space => egui::Key::Space,
        KeyCode::Comma => egui::Key::Comma,
        KeyCode::Period => egui::Key::Period,
        KeyCode::Semicolon => egui::Key::Semicolon,
        KeyCode::Backslash => egui::Key::Backslash,
        KeyCode::Slash => egui::Key::Slash,
        KeyCode::NumpadDivide => egui::Key::Slash,
        KeyCode::BracketLeft => egui::Key::OpenBracket,
        KeyCode::BracketRight => egui::Key::CloseBracket,
        KeyCode::Backquote => egui::Key::Backtick,
        KeyCode::Cut => egui::Key::Cut,
        KeyCode::Copy => egui::Key::Copy,
        KeyCode::Paste => egui::Key::Paste,
        KeyCode::Minus => egui::Key::Minus,
        KeyCode::NumpadSubtract => egui::Key::Minus,
        KeyCode::NumpadAdd => egui::Key::Plus,
        KeyCode::Equal => egui::Key::Equals,
        KeyCode::Digit0 => egui::Key::Num0,
        KeyCode::Numpad0 => egui::Key::Num0,
        KeyCode::Digit1 => egui::Key::Num1,
        KeyCode::Numpad1 => egui::Key::Num1,
        KeyCode::Digit2 => egui::Key::Num2,
        KeyCode::Numpad2 => egui::Key::Num2,
        KeyCode::Digit3 => egui::Key::Num3,
        KeyCode::Numpad3 => egui::Key::Num3,
        KeyCode::Digit4 => egui::Key::Num4,
        KeyCode::Numpad4 => egui::Key::Num4,
        KeyCode::Digit5 => egui::Key::Num5,
        KeyCode::Numpad5 => egui::Key::Num5,
        KeyCode::Digit6 => egui::Key::Num6,
        KeyCode::Numpad6 => egui::Key::Num6,
        KeyCode::Digit7 => egui::Key::Num7,
        KeyCode::Numpad7 => egui::Key::Num7,
        KeyCode::Digit8 => egui::Key::Num8,
        KeyCode::Numpad8 => egui::Key::Num8,
        KeyCode::Digit9 => egui::Key::Num9,
        KeyCode::Numpad9 => egui::Key::Num9,
        KeyCode::KeyA => egui::Key::A,
        KeyCode::KeyB => egui::Key::B,
        KeyCode::KeyC => egui::Key::C,
        KeyCode::KeyD => egui::Key::D,
        KeyCode::KeyE => egui::Key::E,
        KeyCode::KeyF => egui::Key::F,
        KeyCode::KeyG => egui::Key::G,
        KeyCode::KeyH => egui::Key::H,
        KeyCode::KeyI => egui::Key::I,
        KeyCode::KeyJ => egui::Key::J,
        KeyCode::KeyK => egui::Key::K,
        KeyCode::KeyL => egui::Key::L,
        KeyCode::KeyM => egui::Key::M,
        KeyCode::KeyN => egui::Key::N,
        KeyCode::KeyO => egui::Key::O,
        KeyCode::KeyP => egui::Key::P,
        KeyCode::KeyQ => egui::Key::Q,
        KeyCode::KeyR => egui::Key::R,
        KeyCode::KeyS => egui::Key::S,
        KeyCode::KeyT => egui::Key::T,
        KeyCode::KeyU => egui::Key::U,
        KeyCode::KeyV => egui::Key::V,
        KeyCode::KeyW => egui::Key::W,
        KeyCode::KeyX => egui::Key::X,
        KeyCode::KeyY => egui::Key::Y,
        KeyCode::KeyZ => egui::Key::Z,
        KeyCode::F1 => egui::Key::F1,
        KeyCode::F2 => egui::Key::F2,
        KeyCode::F3 => egui::Key::F3,
        KeyCode::F4 => egui::Key::F4,
        KeyCode::F5 => egui::Key::F5,
        KeyCode::F6 => egui::Key::F6,
        KeyCode::F7 => egui::Key::F7,
        KeyCode::F8 => egui::Key::F8,
        KeyCode::F9 => egui::Key::F9,
        KeyCode::F10 => egui::Key::F10,
        KeyCode::F11 => egui::Key::F11,
        KeyCode::F12 => egui::Key::F12,
        KeyCode::F13 => egui::Key::F13,
        KeyCode::F14 => egui::Key::F14,
        KeyCode::F15 => egui::Key::F15,
        KeyCode::F16 => egui::Key::F16,
        KeyCode::F17 => egui::Key::F17,
        KeyCode::F18 => egui::Key::F18,
        KeyCode::F19 => egui::Key::F19,
        KeyCode::F20 => egui::Key::F20,
        KeyCode::Other => return None,
    };
    Some(k)
}

/// A logical key of the host, after the keyboard layout: text keys carry
/// their characters. Named keys that have no GUI key and play no part in
/// modifiers are `Other`.
#[derive(Debug, Clone, PartialEq, Eq)]
pub enum LogicalKey {
    Character(String),
    Unidentified,
    Dead,
    Enter,
    Tab,
    Space,
    ArrowDown,
    ArrowLeft,
    ArrowRight,
    ArrowUp,
    End,
    Home,
    PageDown,
    PageUp,
    Backspace,
    Delete,
    Insert,
    Escape,
    F1,
    F2,
    F3,
    F4,
    F5,
    F6,
    F7,
    F8,
    F9,
    F10,
    F11,
    F12,
    F13,
    F14,
    F15,
    F16,
    F17,
    F18,
    F19,
    F20,
    Shift,
    Control,
    Alt,
    Super,
    Meta,
    Other,
}

/// The GUI key of a named logical key.
pub open spec fn named_key_of(key: LogicalKey) -> Option<egui::Key> {
    match key {
        LogicalKey::Enter => Some(egui::Key::Enter),
        LogicalKey::Tab => Some(egui::Key::Tab),
        LogicalKey::Space => Some(egui::Key::Space),
        LogicalKey::ArrowDown => Some(egui::Key::ArrowDown),
        LogicalKey::ArrowLeft => Some(egui::Key::ArrowLeft),
        LogicalKey::ArrowRight => Some(egui::Key::ArrowRight),
        LogicalKey::ArrowUp => Some(egui::Key::ArrowUp),
        LogicalKey::End => Some(egui::Key::End),
        LogicalKey::Home => Some(egui::Key::Home),
        LogicalKey::PageDown => Some(egui::Key::PageDown),
        LogicalKey::PageUp => Some(egui::Key::PageUp),
        LogicalKey::Backspace => Some(egui::Key::Backspace),
        LogicalKey::Delete => Some(egui::Key::Delete),
        LogicalKey::Insert => Some(egui::Key::Insert),
        LogicalKey::Escape => Some(egui::Key::Escape),
        LogicalKey::F1 => Some(egui::Key::F1),
        LogicalKey::F2 => Some(egui::Key::F2),
        LogicalKey::F3 => Some(egui::Key::F3),
        LogicalKey::F4 => Some(egui::Key::F4),
        LogicalKey::F5 => Some(egui::Key::F5),
        LogicalKey::F6 => Some(egui::Key::F6),
        LogicalKey::F7 => Some(egui::Key::F7),
        LogicalKey::F8 => Some(egui::Key::F8),
        LogicalKey::F9 => Some(egui::Key::F9),
        LogicalKey::F10 => Some(egui::Key::F10),
        LogicalKey::F11 => Some(egui::Key::F11),
        LogicalKey::F12 => Some(egui::Key::F12),
        LogicalKey::F13 => Some(egui::Key::F13),
        LogicalKey::F14 => Some(egui::Key::F14),
        LogicalKey::F15 => Some(egui::Key::F15),
        LogicalKey::F16 => Some(egui::Key::F16),
        LogicalKey::F17 => Some(egui::Key::F17),
        LogicalKey::F18 => Some(egui::Key::F18),
        LogicalKey::F19 => Some(egui::Key::F19),
        LogicalKey::F20 => Some(egui::Key::F20),
        _ => None,
    }
}

/// The GUI key of a logical key: a text key by its name, a named key by the
/// table above; dead and unidentified keys have none.
pub fn bevy_to_egui_key(key: &LogicalKey) -> (r: Option<egui::Key>)
    ensures
        r == match key {
            LogicalKey::Character(s) => key_of_name(s@),
            _ => named_key_of(*key),
        },
{
    let k = match key {
        LogicalKey::Character(s) => return key_from_name(s.as_str()),
        LogicalKey::Enter => egui::Key::Enter,
        LogicalKey::Tab => egui::Key::Tab,
        LogicalKey::Space => egui::Key::Space,
        LogicalKey::ArrowDown => egui::Key::ArrowDown,
        LogicalKey::ArrowLeft => egui::Key::ArrowLeft,
        LogicalKey::ArrowRight => egui::Key::ArrowRight,
        LogicalKey::ArrowUp => egui::Key::ArrowUp,
        LogicalKey::End => egui::Key::End,
        LogicalKey::Home => egui::Key::Home,
        LogicalKey::PageDown => egui::Key::PageDown,
        LogicalKey::PageUp => egui::Key::PageUp,
        LogicalKey::Backspace => egui::Key::Backspace,
        LogicalKey::Delete => egui::Key::Delete,
        LogicalKey::Insert => egui::Key::Insert,
        LogicalKey::Escape => egui::Key::Escape,
        LogicalKey::F1 => egui::Key::F1,
        LogicalKey::F2 => egui::Key::F2,
        LogicalKey::F3 => egui::Key::F3,
        LogicalKey::F4 => egui::Key::F4,
        LogicalKey::F5 => egui::Key::F5,
        LogicalKey::F6 => egui::Key::F6,
        LogicalKey::F7 => egui::Key::F7,
        LogicalKey::F8 => egui::Key::F8,
        LogicalKey::F9 => egui::Key::F9,
        LogicalKey::F10 => egui::Key::F10,
        LogicalKey::F11 => egui::Key::F11,
        LogicalKey::F12 => egui::Key::F12,
        LogicalKey::F13 => egui::Key::F13,
        LogicalKey::F14 => egui::Key::F14,
        LogicalKey::F15 => egui::Key::F15,
        LogicalKey::F16 => egui::Key::F16,
        LogicalKey::F17 => egui::Key::F17,
        LogicalKey::F18 => egui::Key::F18,
        LogicalKey::F19 => egui::Key::F19,
        LogicalKey::F20 => egui::Key::F20,
        _ => return None,
    };
    Some(k)
}

/// The GUI library's pointer buttons.
#[verifier::external_type_specification]
pub struct ExPointerButton(egui::PointerButton);

/// A mouse button of the host.
#[derive(Debug, Clone, Copy, PartialEq, Eq, Hash, Structural)]
pub enum MouseButton {
    Left,
    Right,
    Middle,
    Back,
    Forward,
    Other,
}

/// The GUI's pointer button for a mouse button, if it has one.
pub fn pointer_button_of(button: MouseButton) -> (r: Option<egui::PointerButton>)
    ensures
        r == match button {
            MouseButton::Left => Some(egui::PointerButton::Primary),
            MouseButton::Right => Some(egui::PointerButton::Secondary),
            MouseButton::Middle => Some(egui::PointerButton::Middle),
            MouseButton::Back => Some(egui::PointerButton::Extra1),
            MouseButton::Forward => Some(egui::PointerButton::Extra2),
            MouseButton::Other => None,
        },
{
    match button {
        MouseButton::Left => Some(egui::PointerButton::Primary),
        MouseButton::Right => Some(egui::PointerButton::Secondary),
        MouseButton::Middle => Some(egui::PointerButton::Middle),
        MouseButton::Back => Some(egui::PointerButton::Extra1),
        MouseButton::Forward => Some(egui::PointerButton::Extra2),
        MouseButton::Other => None,
    }
}

} // verus!
