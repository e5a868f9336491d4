//! Settings that switch parts of the input handling on and off.
use vstd::prelude::*;

verus! {

/// Which input systems run for a context; all of them by default.
#[derive(Clone, Copy, Debug, PartialEq, Eq, Structural)]
pub struct EguiInputSystemSettings {
    pub run_write_modifiers_keys_state_system: bool,
    pub run_write_window_pointer_moved_events_system: bool,
    pub run_write_pointer_button_events_system: bool,
    pub run_write_window_touch_events_system: bool,
    pub run_write_non_window_pointer_moved_events_system: bool,
    pub run_write_mouse_wheel_events_system: bool,
    pub run_write_non_window_touch_events_system: bool,
    pub run_write_keyboard_input_events_system: bool,
    pub run_write_ime_events_system: bool,
    /// Only read in browsers.
    pub run_write_text_agent_channel_events_system: bool,
    /// Only read in browsers, where the clipboard is managed.
    pub run_write_web_clipboard_events_system: bool,
}

impl EguiInputSystemSettings {
    /// Every system runs.
    pub open spec fn all_on(self) -> bool {
        &&& self.run_write_modifiers_keys_state_system
        &&& self.run_write_window_pointer_moved_events_system
        &&& self.run_write_pointer_button_events_system
        &&& self.run_write_window_touch_events_system
        &&& self.run_write_non_window_pointer_moved_events_system
        &&& self.run_write_mouse_wheel_events_system
        &&& self.run_write_non_window_touch_events_system
        &&& self.run_write_keyboard_input_events_system
        &&& self.run_write_ime_events_system
        &&& self.run_write_text_agent_channel_events_system
        &&& self.run_write_web_clipboard_events_system
    }
}

impl Default for EguiInputSystemSettings {
    fn default() -> (r: EguiInputSystemSettings)
        ensures
            r.all_on(),
    {
        EguiInputSystemSettings {
            run_write_modifiers_keys_state_system: true,
            run_write_window_pointer_moved_events_system: true,
            run_write_pointer_button_events_system: true,
            run_write_window_touch_events_system: true,
            run_write_non_window_pointer_moved_events_system: true,
            run_write_mouse_wheel_events_system: true,
            run_write_non_window_touch_events_system: true,
            run_write_keyboard_input_events_system: true,
            run_write_ime_events_system: true,
            run_write_text_agent_channel_events_system: true,
            run_write_web_clipboard_events_system: true,
        }
    }
}

/// Settings shared by all contexts.
#[derive(Clone, Copy, Debug, PartialEq, Eq, Structural)]
pub struct EguiGlobalSettings {
    /// Whether a focused context that is not a window gets keyboard input.
    pub enable_focused_non_window_context_updates: bool,
    pub input_system_settings: EguiInputSystemSettings,
}

impl Default for EguiGlobalSettings {
    fn default() -> (r: EguiGlobalSettings)
        ensures
            r.enable_focused_non_window_context_updates,
            r.input_system_settings.all_on(),
    {
        EguiGlobalSettings {
            enable_focused_non_window_context_updates: true,
            input_system_settings: EguiInputSystemSettings::default(),
        }
    }
}

} // verus!
