//! Decisions on the GUI's platform output: cursor, links, clipboard and redraws.
use vstd::prelude::*;

verus! {

/// The browser target for a link the GUI opens: a new tab when it asks for
/// one, else the context's default target, else the same tab.
pub fn open_url_target(new_tab: bool, default_target: &Option<String>) -> (r: String)
    ensures
        new_tab ==> r@ == "_blank"@,
        !new_tab ==> r@ == match default_target {
            Some(t) => t@,
            None => "_self"@,
        },
{
    if new_tab {
        "_blank".to_owned()
    } else {
        match default_target {
            Some(t) => t.clone(),
            None => "_self".to_owned(),
        }
    }
}

/// Whether text the GUI copies goes to the clipboard: only when there is some.
pub fn copies_text(text: &str) -> (r: bool)
    ensures
        r == (text@.len() > 0),
{
    !text.is_empty()
}

/// Whether a context needs the host to draw another frame: when it asked for
/// a repaint and has something to paint or textures to change.
pub fn needs_redraw(has_requested_repaint: bool, paint_jobs_empty: bool, textures_delta_empty: bool) -> (r: bool)
    ensures
        r == (has_requested_repaint && !(paint_jobs_empty && textures_delta_empty)),
{
    has_requested_repaint && !(paint_jobs_empty && textures_delta_empty)
}


/// The GUI library's mouse cursor shapes.
#[verifier::external_type_specification]
pub struct ExCursorIcon(egui::CursorIcon);

/// A system cursor shape of the host's windows.
#[derive(Debug, Clone, Copy, PartialEq, Eq, Hash, Structural)]
pub enum SystemCursorIcon {
    Default,
    Pointer,
    EwResize,
    NeswResize,
    NwseResize,
    NsResize,
    Text,
    Grab,
    Grabbing,
    ContextMenu,
    Help,
    Progress,
    Wait,
    Cell,
    Crosshair,
    VerticalText,
    Alias,
    Copy,
    Move,
    NoDrop,
    NotAllowed,
    AllScroll,
    ZoomIn,
    ZoomOut,
    EResize,
    SeResize,
    SResize,
    SwResize,
    WResize,
    NwResize,
    NResize,
    NeResize,
    ColResize,
    RowResize,
}

/// The system cursor for a GUI cursor shape; none for a hidden cursor.
pub open spec fn system_cursor_of(icon: egui::CursorIcon) -> Option<SystemCursorIcon> {
    match icon {
        egui::CursorIcon::Default => Some(SystemCursorIcon::Default),
        egui::CursorIcon::PointingHand => Some(SystemCursorIcon::Pointer),
        egui::CursorIcon::ResizeHorizontal => Some(SystemCursorIcon::EwResize),
        egui::CursorIcon::ResizeNeSw => Some(SystemCursorIcon::NeswResize),
        egui::CursorIcon::ResizeNwSe => Some(SystemCursorIcon::NwseResize),
        egui::CursorIcon::ResizeVertical => Some(SystemCursorIcon::NsResize),
        egui::CursorIcon::Text => Some(SystemCursorIcon::Text),
        egui::CursorIcon::Grab => Some(SystemCursorIcon::Grab),
        egui::CursorIcon::Grabbing => Some(SystemCursorIcon::Grabbing),
        egui::CursorIcon::ContextMenu => Some(SystemCursorIcon::ContextMenu),
        egui::CursorIcon::Help => Some(SystemCursorIcon::Help),
        egui::CursorIcon::Progress => Some(SystemCursorIcon::Progress),
        egui::CursorIcon::Wait => Some(SystemCursorIcon::Wait),
        egui::CursorIcon::Cell => Some(SystemCursorIcon::Cell),
        egui::CursorIcon::Crosshair => Some(SystemCursorIcon::Crosshair),
        egui::CursorIcon::VerticalText => Some(SystemCursorIcon::VerticalText),
        egui::CursorIcon::Alias => Some(SystemCursorIcon::Alias),
        egui::CursorIcon::Copy => Some(SystemCursorIcon::Copy),
        egui::CursorIcon::Move => Some(SystemCursorIcon::Move),
        egui::CursorIcon::NoDrop => Some(SystemCursorIcon::NoDrop),
        egui::CursorIcon::NotAllowed => Some(SystemCursorIcon::NotAllowed),
        egui::CursorIcon::AllScroll => Some(SystemCursorIcon::AllScroll),
        egui::CursorIcon::ZoomIn => Some(SystemCursorIcon::ZoomIn),
        egui::CursorIcon::ZoomOut => Some(SystemCursorIcon::ZoomOut),
        egui::CursorIcon::ResizeEast => Some(SystemCursorIcon::EResize),
        egui::CursorIcon::ResizeSouthEast => Some(SystemCursorIcon::SeResize),
        egui::CursorIcon::ResizeSouth => Some(SystemCursorIcon::SResize),
        egui::CursorIcon::ResizeSouthWest => Some(SystemCursorIcon::SwResize),
        egui::CursorIcon::ResizeWest => Some(SystemCursorIcon::WResize),
        egui::CursorIcon::ResizeNorthWest => Some(SystemCursorIcon::NwResize),
        egui::CursorIcon::ResizeNorth => Some(SystemCursorIcon::NResize),
        egui::CursorIcon::ResizeNorthEast => Some(SystemCursorIcon::NeResize),
        egui::CursorIcon::ResizeColumn => Some(SystemCursorIcon::ColResize),
        egui::CursorIcon::ResizeRow => Some(SystemCursorIcon::RowResize),
        egui::CursorIcon::None => None,
    }
}

/// The system cursor for a GUI cursor shape; none for a hidden cursor.
pub fn egui_to_winit_cursor_icon(cursor_icon: egui::CursorIcon) -> (r: Option<SystemCursorIcon>)
    ensures
        r == system_cursor_of(cursor_icon),
{
    match cursor_icon {
        egui::CursorIcon::Default => Some(SystemCursorIcon::Default),
        egui::CursorIcon::PointingHand => Some(SystemCursorIcon::Pointer),
        egui::CursorIcon::ResizeHorizontal => Some(SystemCursorIcon::EwResize),
        egui::CursorIcon::ResizeNeSw => Some(SystemCursorIcon::NeswResize),
        egui::CursorIcon::ResizeNwSe => Some(SystemCursorIcon::NwseResize),
        egui::CursorIcon::ResizeVertical => Some(SystemCursorIcon::NsResize),
        egui::CursorIcon::Text => Some(SystemCursorIcon::Text),
        egui::CursorIcon::Grab => Some(SystemCursorIcon::Grab),
        egui::CursorIcon::Grabbing => Some(SystemCursorIcon::Grabbing),
        egui::CursorIcon::ContextMenu => Some(SystemCursorIcon::ContextMenu),
        egui::CursorIcon::Help => Some(SystemCursorIcon::Help),
        egui::CursorIcon::Progress => Some(SystemCursorIcon::Progress),
        egui::CursorIcon::Wait => Some(SystemCursorIcon::Wait),
        egui::CursorIcon::Cell => Some(SystemCursorIcon::Cell),
        egui::CursorIcon::Crosshair => Some(SystemCursorIcon::Crosshair),
        egui::CursorIcon::VerticalText => Some(SystemCursorIcon::VerticalText),
        egui::CursorIcon::Alias => Some(SystemCursorIcon::Alias),
        egui::CursorIcon::Copy => Some(SystemCursorIcon::Copy),
        egui::CursorIcon::Move => Some(SystemCursorIcon::Move),
        egui::CursorIcon::NoDrop => Some(SystemCursorIcon::NoDrop),
        egui::CursorIcon::NotAllowed => Some(SystemCursorIcon::NotAllowed),
        egui::CursorIcon::AllScroll => Some(SystemCursorIcon::AllScroll),
        egui::CursorIcon::ZoomIn => Some(SystemCursorIcon::ZoomIn),
        egui::CursorIcon::ZoomOut => Some(SystemCursorIcon::ZoomOut),
        egui::CursorIcon::ResizeEast => Some(SystemCursorIcon::EResize),
        egui::CursorIcon::ResizeSouthEast => Some(SystemCursorIcon::SeResize),
        egui::CursorIcon::ResizeSouth => Some(SystemCursorIcon::SResize),
        egui::CursorIcon::ResizeSouthWest => Some(SystemCursorIcon::SwResize),
        egui::CursorIcon::ResizeWest => Some(SystemCursorIcon::WResize),
        egui::CursorIcon::ResizeNorthWest => Some(SystemCursorIcon::NwResize),
        egui::CursorIcon::ResizeNorth => Some(SystemCursorIcon::NResize),
        egui::CursorIcon::ResizeNorthEast => Some(SystemCursorIcon::NeResize),
        egui::CursorIcon::ResizeColumn => Some(SystemCursorIcon::ColResize),
        egui::CursorIcon::ResizeRow => Some(SystemCursorIcon::RowResize),
        egui::CursorIcon::None => None,
    }
}

/// The system cursor for a GUI cursor shape, the default arrow where the
/// shape has none.
pub fn cursor_or_default(cursor_icon: egui::CursorIcon) -> (r: SystemCursorIcon)
    ensures
        r == match system_cursor_of(cursor_icon) {
            Some(c) => c,
            None => SystemCursorIcon::Default,
        },
{
    match egui_to_winit_cursor_icon(cursor_icon) {
        Some(c) => c,
        None => SystemCursorIcon::Default,
    }
}

/// Whether the host is asked for another frame: when some context needs one.
pub fn any_needs_redraw(needs: &Vec<bool>) -> (r: bool)
    ensures
        r == exists|i: int| 0 <= i < needs@.len() && #[trigger] needs@[i],
{
    let mut i: usize = 0;
    while i < needs.len()
        invariant
            i <= needs@.len(),
            forall|j: int| 0 <= j < i ==> !(#[trigger] needs@[j]),
        decreases needs@.len() - i,
    {
        if needs[i] {
            return true;
        }
        i = i + 1;
    }
    false
}

} // verus!
