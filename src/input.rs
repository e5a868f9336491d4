//! Input bookkeeping: modifier keys, what the GUI wants of the input, IME
//! state, and what a key press turns into.
use vstd::prelude::*;
use crate::keys::{
    bevy_to_egui_key, bevy_to_egui_physical_key, key_of_name, named_key_of, physical_key_of, KeyCode,
    LogicalKey,
};
use vstd::string::StrSliceExecFns;

verus! {

/// The GUI library's state of the modifier keys.
#[verifier::external_type_specification]
pub struct ExModifiers(egui::Modifiers);

/// The GUI library's input-method events.
#[verifier::external_type_specification]
pub struct ExImeEvent(egui::ImeEvent);

/// The GUI library's context: its state is shared and only reached through its methods.
#[verifier::external_type_specification]
#[verifier::external_body]
pub struct ExContext(egui::Context);

/// Relies on egui::Context::is_pointer_over_area, which reads the context's current state.
pub assume_specification[ egui::Context::is_pointer_over_area ](ctx: &egui::Context) -> bool;

/// Relies on egui::Context::wants_pointer_input, which reads the context's current state.
pub assume_specification[ egui::Context::wants_pointer_input ](ctx: &egui::Context) -> bool;

/// Relies on egui::Context::is_using_pointer, which reads the context's current state.
pub assume_specification[ egui::Context::is_using_pointer ](ctx: &egui::Context) -> bool;

/// Relies on egui::Context::wants_keyboard_input, which reads the context's current state.
pub assume_specification[ egui::Context::wants_keyboard_input ](ctx: &egui::Context) -> bool;

/// Relies on egui::Context::is_context_menu_open, which reads the context's current state.
pub assume_specification[ egui::Context::is_context_menu_open ](ctx: &egui::Context) -> bool;

/// A modifier key of the host's logical keys.
#[derive(Debug, Clone, Copy, PartialEq, Eq, Structural)]
pub enum ModifierKey {
    Shift,
    Control,
    Alt,
    Super,
    Meta,
}

/// Stores the "pressed" state of the modifier keys.
#[derive(Debug, Clone, Copy, PartialEq, Eq, Structural)]
pub struct ModifierKeysState {
    /// Whether Shift is pressed.
    pub shift: bool,
    /// Whether Control is pressed.
    pub ctrl: bool,
    /// Whether Alt is pressed.
    pub alt: bool,
    /// Whether Super (or Meta) is pressed.
    pub win: bool,
    /// Whether the keys follow the macOS conventions.
    pub is_macos: bool,
}

impl ModifierKeysState {
    /// No key pressed, on a platform that is macOS or not.
    pub fn new(is_macos: bool) -> (r: ModifierKeysState)
        ensures
            !r.shift && !r.ctrl && !r.alt && !r.win,
            r.is_macos == is_macos,
    {
        ModifierKeysState { shift: false, ctrl: false, alt: false, win: false, is_macos }
    }

    /// The GUI's modifiers: the command key is Super on macOS and Control elsewhere.
    pub fn to_egui_modifiers(&self) -> (r: egui::Modifiers)
        ensures
            r == (egui::Modifiers {
                alt: self.alt,
                ctrl: self.ctrl,
                shift: self.shift,
                mac_cmd: self.is_macos && self.win,
                command: if self.is_macos { self.win } else { self.ctrl },
            }),
    {
        egui::Modifiers {
            alt: self.alt,
            ctrl: self.ctrl,
            shift: self.shift,
            mac_cmd: if self.is_macos { self.win } else { false },
            command: if self.is_macos { self.win } else { self.ctrl },
        }
    }

    /// Whether the modifiers leave text input through: not with Super or
    /// Control held, except for Control with Alt (AltGr) outside macOS.
    pub fn text_input_is_allowed(&self) -> (r: bool)
        ensures
            r == (!self.win && !self.ctrl || !self.is_macos && self.ctrl && self.alt),
    {
        !self.win && !self.ctrl || !self.is_macos && self.ctrl && self.alt
    }

    /// Releases all the keys, as when the window loses focus.
    pub fn reset(&mut self)
        ensures
            !final(self).shift && !final(self).ctrl && !final(self).alt && !final(self).win,
            final(self).is_macos == old(self).is_macos,
    {
        self.shift = false;
        self.ctrl = false;
        self.alt = false;
        self.win = false;
    }

    /// Records a modifier key going down or up.
    pub fn update(&mut self, key: ModifierKey, pressed: bool)
        ensures
            final(self).shift == if key == ModifierKey::Shift { pressed } else { old(self).shift },
            final(self).ctrl == if key == ModifierKey::Control { pressed } else { old(self).ctrl },
            final(self).alt == if key == ModifierKey::Alt { pressed } else { old(self).alt },
            final(self).win == if key == ModifierKey::Super || key == ModifierKey::Meta {
                pressed
            } else {
                old(self).win
            },
            final(self).is_macos == old(self).is_macos,
    {
        match key {
            ModifierKey::Shift => self.shift = pressed,
            ModifierKey::Control => self.ctrl = pressed,
            ModifierKey::Alt => self.alt = pressed,
            ModifierKey::Super | ModifierKey::Meta => self.win = pressed,
        }
    }
}

/// Whether any GUI context wants the pointer or the keyboard.
#[derive(Debug, Clone, Copy, PartialEq, Eq, Structural)]
pub struct EguiWantsInput {
    is_pointer_over_area: bool,
    wants_pointer_input: bool,
    is_using_pointer: bool,
    wants_keyboard_input: bool,
    is_context_menu_open: bool,
}

impl EguiWantsInput {
    /// The flags, in the order: pointer over an area, wants the pointer, uses
    /// the pointer, wants the keyboard, a context menu is open.
    pub closed spec fn flags(&self) -> (bool, bool, bool, bool, bool) {
        (
            self.is_pointer_over_area,
            self.wants_pointer_input,
            self.is_using_pointer,
            self.wants_keyboard_input,
            self.is_context_menu_open,
        )
    }

    /// The flags of one context.
    pub fn new(
        is_pointer_over_area: bool,
        wants_pointer_input: bool,
        is_using_pointer: bool,
        wants_keyboard_input: bool,
        is_context_menu_open: bool,
    ) -> (r: EguiWantsInput)
        ensures
            r.flags() == (
                is_pointer_over_area,
                wants_pointer_input,
                is_using_pointer,
                wants_keyboard_input,
                is_context_menu_open,
            ),
    {
        EguiWantsInput {
            is_pointer_over_area,
            wants_pointer_input,
            is_using_pointer,
            wants_keyboard_input,
            is_context_menu_open,
        }
    }

    /// Is the pointer over any GUI area?
    pub fn is_pointer_over_area(&self) -> (r: bool)
        ensures
            r == self.flags().0,
    {
        self.is_pointer_over_area
    }

    /// Is the GUI interested in the pointer (hovering a window, dragging a widget)?
    pub fn wants_pointer_input(&self) -> (r: bool)
        ensures
            r == self.flags().1,
    {
        self.wants_pointer_input
    }

    /// Is the GUI using the pointer position (dragging a slider)?
    pub fn is_using_pointer(&self) -> (r: bool)
        ensures
            r == self.flags().2,
    {
        self.is_using_pointer
    }

    /// Is the GUI listening to text input?
    pub fn wants_keyboard_input(&self) -> (r: bool)
        ensures
            r == self.flags().3,
    {
        self.wants_keyboard_input
    }

    /// Is a context menu open?
    pub fn is_context_menu_open(&self) -> (r: bool)
        ensures
            r == self.flags().4,
    {
        self.is_context_menu_open
    }

    /// Whether the pointer is over an area, wanted, used, or a context menu is open.
    pub fn wants_any_pointer_input(&self) -> (r: bool)
        ensures
            r == (self.flags().0 || self.flags().1 || self.flags().2 || self.flags().4),
    {
        self.is_pointer_over_area || self.wants_pointer_input || self.is_using_pointer
            || self.is_context_menu_open
    }

    /// Whether the keyboard is wanted or a context menu is open.
    pub fn wants_any_keyboard_input(&self) -> (r: bool)
        ensures
            r == (self.flags().3 || self.flags().4),
    {
        self.wants_keyboard_input || self.is_context_menu_open
    }

    /// Whether the GUI wants the pointer or the keyboard.
    pub fn wants_any_input(&self) -> (r: bool)
        ensures
            r == (self.flags().0 || self.flags().1 || self.flags().2 || self.flags().3 || self.flags().4),
    {
        self.wants_any_pointer_input() || self.wants_any_keyboard_input()
    }

    /// Clears all the flags, before the contexts are asked again.
    pub fn reset(&mut self)
        ensures
            final(self).flags() == (false, false, false, false, false),
    {
        self.is_pointer_over_area = false;
        self.wants_pointer_input = false;
        self.is_using_pointer = false;
        self.wants_keyboard_input = false;
        self.is_context_menu_open = false;
    }

    /// Adds one context's flags: each flag is set when it was set before or in `other`.
    pub fn merge(&mut self, other: &EguiWantsInput)
        ensures
            final(self).flags() == (
                old(self).flags().0 || other.flags().0,
                old(self).flags().1 || other.flags().1,
                old(self).flags().2 || other.flags().2,
                old(self).flags().3 || other.flags().3,
                old(self).flags().4 || other.flags().4,
            ),
    {
        self.is_pointer_over_area = self.is_pointer_over_area || other.is_pointer_over_area;
        self.wants_pointer_input = self.wants_pointer_input || other.wants_pointer_input;
        self.is_using_pointer = self.is_using_pointer || other.is_using_pointer;
        self.wants_keyboard_input = self.wants_keyboard_input || other.wants_keyboard_input;
        self.is_context_menu_open = self.is_context_menu_open || other.is_context_menu_open;
    }

    /// Asks a context what it wants and adds its answer; a flag once set stays set.
    pub fn merge_context(&mut self, ctx: &egui::Context)
        ensures
            old(self).flags().0 ==> final(self).flags().0,
            old(self).flags().1 ==> final(self).flags().1,
            old(self).flags().2 ==> final(self).flags().2,
            old(self).flags().3 ==> final(self).flags().3,
            old(self).flags().4 ==> final(self).flags().4,
    {
        let other = EguiWantsInput::new(
            ctx.is_pointer_over_area(),
            ctx.wants_pointer_input(),
            ctx.is_using_pointer(),
            ctx.wants_keyboard_input(),
            ctx.is_context_menu_open(),
        );
        self.merge(&other);
    }
}

impl Default for EguiWantsInput {
    fn default() -> (r: EguiWantsInput)
        ensures
            r.flags() == (false, false, false, false, false),
    {
        EguiWantsInput::new(false, false, false, false, false)
    }
}

/// An input-method event of the host, without its window.
pub enum ImeInput {
    Enabled,
    Preedit(String),
    Commit(String),
    Disabled,
}

/// Whether a context was told that the input method is on.
#[derive(Debug, Clone, Copy, PartialEq, Eq, Structural)]
pub struct EguiContextImeState {
    pub has_sent_ime_enabled: bool,
}

impl EguiContextImeState {
    /// Turns a host input-method event into the GUI's events. The GUI is told
    /// once that the input method is on, before the first preedit, and told
    /// that it is off after a commit or when it is turned off, once for each
    /// time it was told that it is on.
    pub fn handle(&mut self, event: ImeInput) -> (r: Vec<egui::ImeEvent>)
        ensures
            ({
                let was = old(self).has_sent_ime_enabled;
                let enable: Seq<egui::ImeEvent> = if was { seq![] } else { seq![egui::ImeEvent::Enabled] };
                let disable: Seq<egui::ImeEvent> = if was { seq![egui::ImeEvent::Disabled] } else { seq![] };
                match event {
                    ImeInput::Enabled => r@ == enable && final(self).has_sent_ime_enabled,
                    ImeInput::Preedit(v) => r@ == enable.push(egui::ImeEvent::Preedit(v))
                        && final(self).has_sent_ime_enabled,
                    ImeInput::Commit(v) => r@ == seq![egui::ImeEvent::Commit(v)] + disable
                        && !final(self).has_sent_ime_enabled,
                    ImeInput::Disabled => r@ == disable && !final(self).has_sent_ime_enabled,
                }
            }),
    {
        let mut events: Vec<egui::ImeEvent> = Vec::new();
        match event {
            ImeInput::Enabled => {
                self.enable(&mut events);
            },
            ImeInput::Preedit(value) => {
                self.enable(&mut events);
                events.push(egui::ImeEvent::Preedit(value));
            },
            ImeInput::Commit(value) => {
                events.push(egui::ImeEvent::Commit(value));
                self.disable(&mut events);
            },
            ImeInput::Disabled => {
                self.disable(&mut events);
            },
        }
        events
    }

    fn enable(&mut self, events: &mut Vec<egui::ImeEvent>)
        ensures
            final(self).has_sent_ime_enabled,
            final(events)@ == if old(self).has_sent_ime_enabled {
                old(events)@
            } else {
                old(events)@.push(egui::ImeEvent::Enabled)
            },
    {
        if !self.has_sent_ime_enabled {
            events.push(egui::ImeEvent::Enabled);
            self.has_sent_ime_enabled = true;
        }
    }

    fn disable(&mut self, events: &mut Vec<egui::ImeEvent>)
        ensures
            !final(self).has_sent_ime_enabled,
            final(events)@ == if old(self).has_sent_ime_enabled {
                old(events)@.push(egui::ImeEvent::Disabled)
            } else {
                old(events)@
            },
    {
        if self.has_sent_ime_enabled {
            events.push(egui::ImeEvent::Disabled);
            self.has_sent_ime_enabled = false;
        }
    }
}

/// A clipboard shortcut.
#[derive(Debug, Clone, Copy, PartialEq, Eq, Structural)]
pub enum ClipboardAction {
    Copy,
    Cut,
    Paste,
}

/// What one key event of the host turns into, in this order: text typed,
/// the key event, and a clipboard shortcut.
pub struct KeyboardOutcome {
    pub text: Option<String>,
    /// The GUI's key, and the GUI's key at the same physical place.
    pub key: Option<(egui::Key, Option<egui::Key>)>,
    pub clipboard: Option<ClipboardAction>,
}

/// A control character (general category Cc).
pub open spec fn is_control(c: char) -> bool {
    (c as u32) <= 0x1f || 0x7f <= (c as u32) <= 0x9f
}

/// Whether some character of `s` is a control character.
pub open spec fn has_control(s: Seq<char>) -> bool {
    exists|i: int| 0 <= i < s.len() && is_control(#[trigger] s[i])
}

fn contains_control(s: &String) -> (r: bool)
    ensures
        r == has_control(s@),
{
    let text = s.as_str();
    let n = text.unicode_len();
    let mut i: usize = 0;
    while i < n
        invariant
            n == text@.len(),
            text@ == s@,
            i <= n,
            forall|j: int| 0 <= j < i ==> !is_control(#[trigger] s@[j]),
        decreases n - i,
    {
        let c = text.get_char(i);
        if (c as u32) <= 0x1f || (0x7f <= (c as u32) && (c as u32) <= 0x9f) {
            return true;
        }
        i = i + 1;
    }
    false
}

/// Whether `r` is what a key event turns into, where `key` and `physical_key`
/// are the GUI's keys for the event's logical and physical key, if it has them.
///
/// Text is typed on a press that the modifiers let through: the key's
/// characters when none is a control character, a blank for the space bar.
/// The key event goes out with the logical key, or the physical one where
/// there is no logical one. With the clipboard managed, the command modifier
/// and a press of C, X or V make a copy, cut or paste.
pub open spec fn is_keyboard_outcome(
    r: KeyboardOutcome,
    modifiers: ModifierKeysState,
    logical_key: LogicalKey,
    pressed: bool,
    key: Option<egui::Key>,
    physical_key: Option<egui::Key>,
    manage_clipboard: bool,
) -> bool {
    &&& ({
        let typing = pressed && (!modifiers.win && !modifiers.ctrl || !modifiers.is_macos && modifiers.ctrl
            && modifiers.alt);
        match logical_key {
            LogicalKey::Character(s) => r.text == if typing && !has_control(s@) {
                Some(s)
            } else {
                None::<String>
            },
            LogicalKey::Space => if typing {
                r.text is Some && r.text->0@ == seq![' ']
            } else {
                r.text is None
            },
            _ => r.text is None,
        }
    })
    &&& ({
        let chosen = if key is Some { key } else { physical_key };
        let command = if modifiers.is_macos { modifiers.win } else { modifiers.ctrl };
        match chosen {
            None => r.key is None && r.clipboard is None,
            Some(k) => {
                &&& r.key == Some((k, physical_key))
                &&& r.clipboard == if manage_clipboard && command && pressed {
                    if k == egui::Key::C {
                        Some(ClipboardAction::Copy)
                    } else if k == egui::Key::X {
                        Some(ClipboardAction::Cut)
                    } else if k == egui::Key::V {
                        Some(ClipboardAction::Paste)
                    } else {
                        None
                    }
                } else {
                    None
                }
            },
        }
    })
}

/// What a key event turns into, given the GUI's keys for its logical and
/// physical key.
pub fn keyboard_outcome(
    modifiers: &ModifierKeysState,
    logical_key: LogicalKey,
    pressed: bool,
    key: Option<egui::Key>,
    physical_key: Option<egui::Key>,
    manage_clipboard: bool,
) -> (r: KeyboardOutcome)
    ensures
        is_keyboard_outcome(r, *modifiers, logical_key, pressed, key, physical_key, manage_clipboard),
{
    let mut text: Option<String> = None;
    if modifiers.text_input_is_allowed() && pressed {
        match logical_key {
            LogicalKey::Character(s) => {
                if !contains_control(&s) {
                    text = Some(s);
                }
            },
            LogicalKey::Space => {
                let blank = " ".to_owned();
                proof {
                    reveal_strlit(" ");
                    assert(blank@ =~= seq![' ']);
                }
                text = Some(blank);
            },
            _ => {},
        }
    }
    let chosen = match key {
        Some(k) => Some(k),
        None => physical_key,
    };
    match chosen {
        None => KeyboardOutcome { text, key: None, clipboard: None },
        Some(k) => {
            let command = modifiers.to_egui_modifiers().command;
            let clipboard = if manage_clipboard && command && pressed {
                match k {
                    egui::Key::C => Some(ClipboardAction::Copy),
                    egui::Key::X => Some(ClipboardAction::Cut),
                    egui::Key::V => Some(ClipboardAction::Paste),
                    _ => None,
                }
            } else {
                None
            };
            KeyboardOutcome { text, key: Some((k, physical_key)), clipboard }
        },
    }
}

/// What a key event of the host turns into: its keys are looked up as GUI keys first.
pub fn keyboard_event_outcome(
    modifiers: &ModifierKeysState,
    logical_key: LogicalKey,
    key_code: KeyCode,
    pressed: bool,
    manage_clipboard: bool,
) -> (r: KeyboardOutcome)
    ensures
        is_keyboard_outcome(
            r,
            *modifiers,
            logical_key,
            pressed,
            match logical_key {
                LogicalKey::Character(s) => key_of_name(s@),
                _ => named_key_of(logical_key),
            },
            physical_key_of(key_code),
            manage_clipboard,
        ),
{
    let key = bevy_to_egui_key(&logical_key);
    let physical_key = bevy_to_egui_physical_key(&key_code);
    keyboard_outcome(modifiers, logical_key, pressed, key, physical_key, manage_clipboard)
}

/// The modifier that a logical key is, if any.
pub fn modifier_of(key: &LogicalKey) -> (r: Option<ModifierKey>)
    ensures
        r == match key {
            LogicalKey::Shift => Some(ModifierKey::Shift),
            LogicalKey::Control => Some(ModifierKey::Control),
            LogicalKey::Alt => Some(ModifierKey::Alt),
            LogicalKey::Super => Some(ModifierKey::Super),
            LogicalKey::Meta => Some(ModifierKey::Meta),
            _ => None::<ModifierKey>,
        },
{
    match key {
        LogicalKey::Shift => Some(ModifierKey::Shift),
        LogicalKey::Control => Some(ModifierKey::Control),
        LogicalKey::Alt => Some(ModifierKey::Alt),
        LogicalKey::Super => Some(ModifierKey::Super),
        LogicalKey::Meta => Some(ModifierKey::Meta),
        _ => None,
    }
}

/// The GUI library's touch phases.
#[verifier::external_type_specification]
pub struct ExTouchPhase(egui::TouchPhase);

/// Phase of a touch of the host.
#[derive(Debug, Clone, Copy, PartialEq, Eq, Structural)]
pub enum TouchInputPhase {
    Started,
    Moved,
    Ended,
    Canceled,
}

impl TouchInputPhase {
    /// The GUI's name for the phase.
    pub fn to_egui(self) -> (r: egui::TouchPhase)
        ensures
            r == match self {
                TouchInputPhase::Started => egui::TouchPhase::Start,
                TouchInputPhase::Moved => egui::TouchPhase::Move,
                TouchInputPhase::Ended => egui::TouchPhase::End,
                TouchInputPhase::Canceled => egui::TouchPhase::Cancel,
            },
    {
        match self {
            TouchInputPhase::Started => egui::TouchPhase::Start,
            TouchInputPhase::Moved => egui::TouchPhase::Move,
            TouchInputPhase::Ended => egui::TouchPhase::End,
            TouchInputPhase::Canceled => egui::TouchPhase::Cancel,
        }
    }
}

/// A pointer event that stands in for a touch, at the touch's position.
#[derive(Debug, Clone, Copy, PartialEq, Eq, Structural)]
pub enum PointerEmulation {
    /// The pointer moves to the touch.
    Moved,
    /// The primary button goes down.
    Pressed,
    /// The primary button goes up.
    Released,
    /// The pointer leaves.
    Gone,
}

/// The touch that drives a context's pointer, if any.
#[derive(Debug, Clone, Copy, PartialEq, Eq, Structural)]
pub struct EguiContextPointerTouchId {
    pub pointer_touch_id: Option<u64>,
}

impl EguiContextPointerTouchId {
    /// The pointer events that a touch event stands for. Only one touch at a
    /// time drives the pointer: the one that started while no other did.
    pub fn emulate(&mut self, touch_id: u64, phase: TouchInputPhase) -> (r: Vec<PointerEmulation>)
        ensures
            old(self).pointer_touch_id is None || old(self).pointer_touch_id == Some(touch_id) ==> match phase {
                TouchInputPhase::Started => r@ == seq![PointerEmulation::Moved, PointerEmulation::Pressed]
                    && final(self).pointer_touch_id == Some(touch_id),
                TouchInputPhase::Moved => r@ == seq![PointerEmulation::Moved] && *final(self) == *old(self),
                TouchInputPhase::Ended => r@ == seq![PointerEmulation::Released, PointerEmulation::Gone]
                    && final(self).pointer_touch_id is None,
                TouchInputPhase::Canceled => r@ == seq![PointerEmulation::Gone] && final(self).pointer_touch_id is None,
            },
            !(old(self).pointer_touch_id is None || old(self).pointer_touch_id == Some(touch_id)) ==> r@
                == Seq::<PointerEmulation>::empty() && *final(self) == *old(self),
    {
        let mut events: Vec<PointerEmulation> = Vec::new();
        let driving = match self.pointer_touch_id {
            None => true,
            Some(id) => id == touch_id,
        };
        if driving {
            match phase {
                TouchInputPhase::Started => {
                    self.pointer_touch_id = Some(touch_id);
                    events.push(PointerEmulation::Moved);
                    events.push(PointerEmulation::Pressed);
                },
                TouchInputPhase::Moved => {
                    events.push(PointerEmulation::Moved);
                },
                TouchInputPhase::Ended => {
                    self.pointer_touch_id = None;
                    events.push(PointerEmulation::Released);
                    events.push(PointerEmulation::Gone);
                },
                TouchInputPhase::Canceled => {
                    self.pointer_touch_id = None;
                    events.push(PointerEmulation::Gone);
                },
            }
        }
        events
    }
}

/// A file drag-and-drop event of the host, with the file's path.
pub enum FileDragAndDropInput {
    DroppedFile(String),
    HoveredFile(String),
    HoveredFileCanceled,
}

/// Files hovering over a context and files dropped on it since the last pass.
pub struct FileDropState {
    pub hovered_files: Vec<String>,
    pub dropped_files: Vec<String>,
}

impl FileDropState {
    /// Applies a drag-and-drop event: a drop ends the hovering, a cancel too.
    pub fn apply(&mut self, event: FileDragAndDropInput)
        ensures
            match event {
                FileDragAndDropInput::DroppedFile(path) => final(self).hovered_files@.len() == 0
                    && final(self).dropped_files@ == old(self).dropped_files@.push(path),
                FileDragAndDropInput::HoveredFile(path) => final(self).hovered_files@
                    == old(self).hovered_files@.push(path) && final(self).dropped_files@
                    == old(self).dropped_files@,
                FileDragAndDropInput::HoveredFileCanceled => final(self).hovered_files@.len() == 0
                    && final(self).dropped_files@ == old(self).dropped_files@,
            },
    {
        match event {
            FileDragAndDropInput::DroppedFile(path) => {
                self.hovered_files.clear();
                self.dropped_files.push(path);
            },
            FileDragAndDropInput::HoveredFile(path) => {
                self.hovered_files.push(path);
            },
            FileDragAndDropInput::HoveredFileCanceled => {
                self.hovered_files.clear();
            },
        }
    }
}

/// The context an input event of a window goes to: the hovered (for the
/// pointer) or focused (for the keyboard) context that is not a window when
/// there is one, else the window's own.
pub fn event_target(non_window_context: Option<u64>, window: u64) -> (r: u64)
    ensures
        r == match non_window_context {
            Some(c) => c,
            None => window,
        },
{
    match non_window_context {
        Some(c) => c,
        None => window,
    }
}

/// What a press of a button or a new touch does to the keyboard focus of
/// contexts that are not windows.
#[derive(Debug, Clone, Copy, PartialEq, Eq, Structural)]
pub enum FocusChange {
    /// The focus stays where it is.
    Keep,
    /// The hovered context that is not a window takes the focus.
    Focus(u64),
    /// No context that is not a window has the focus any more.
    Clear,
}

/// The focus change after a button press or a new touch (`pressed`), when
/// such focus updates are `enabled`: the hovered context that is not a
/// window takes the focus, and without one the focus is cleared.
pub fn focus_change(enabled: bool, pressed: bool, hovered_non_window_context: Option<u64>) -> (r: FocusChange)
    ensures
        r == if enabled && pressed {
            match hovered_non_window_context {
                Some(c) => FocusChange::Focus(c),
                None => FocusChange::Clear,
            }
        } else {
            FocusChange::Keep
        },
{
    if enabled && pressed {
        match hovered_non_window_context {
            Some(c) => FocusChange::Focus(c),
            None => FocusChange::Clear,
        }
    } else {
        FocusChange::Keep
    }
}

/// Whether a context has the keyboard focus: the focused context that is not
/// a window when there is one, else the context of a focused window.
pub fn context_is_focused(focused_non_window_context: Option<u64>, entity: u64, window_focused: Option<bool>) -> (r:
    bool)
    ensures
        r == match focused_non_window_context {
            Some(c) => c == entity,
            None => window_focused == Some(true),
        },
{
    match focused_non_window_context {
        Some(c) => c == entity,
        None => match window_focused {
            Some(f) => f,
            None => false,
        },
    }
}

} // verus!
