//! The system tray: its menu, and what each of its entries does to the main
//! window. The tray is the way back to a window closed to the tray.

use vstd::prelude::*;
use crate::text::str_is;

verus! {

/// What a tray menu entry asks for.
pub enum TrayAction {
    /// Show the main window if it is hidden, hide it if it is shown.
    ToggleWindow,
    /// Send this event to the interface, then show the main window.
    EmitAndShow(String),
    /// Quit the application (not merely hide it).
    Quit,
    /// Nothing: the entry is not one of the tray's.
    Nothing,
}

/// What toggling does to the main window.
pub enum WindowAction {
    Show,
    Hide,
}

/// The tray menu: each entry's id and label, in order.
pub open spec fn menu_entries() -> Seq<(Seq<char>, Seq<char>)> {
    seq![
        ("show"@, "Show / Hide Window"@),
        ("new_chat"@, "New Chat"@),
        ("toggle_yolo"@, "Toggle YOLO"@),
        ("quit"@, "Quit Grok Desktop"@),
    ]
}

/// The entries of the tray menu, in order (see `menu_entries`).
pub fn tray_menu_items() -> (r: Vec<(String, String)>)
    ensures
        r@.len() == menu_entries().len(),
        forall|i: int|
            0 <= i < r@.len() ==> (#[trigger] r@[i]).0@ == menu_entries()[i].0 && r@[i].1@
                == menu_entries()[i].1,
{
    let mut r: Vec<(String, String)> = Vec::new();
    r.push((String::from_str("show"), String::from_str("Show / Hide Window")));
    r.push((String::from_str("new_chat"), String::from_str("New Chat")));
    r.push((String::from_str("toggle_yolo"), String::from_str("Toggle YOLO")));
    r.push((String::from_str("quit"), String::from_str("Quit Grok Desktop")));
    r
}

/// The tooltip of the tray icon.
pub fn tray_tooltip() -> (r: &'static str)
    ensures
        r@ == "Grok Desktop \u{2014} left-click to show/hide"@,
{
    "Grok Desktop \u{2014} left-click to show/hide"
}

/// What choosing the tray entry `id` does: `show` toggles the window,
/// `new_chat` and `toggle_yolo` tell the interface and show the window, `quit`
/// quits; any other id does nothing.
pub fn tray_menu_action(id: &str) -> (r: TrayAction)
    ensures
        id@ == "show"@ ==> r is ToggleWindow,
        id@ == "new_chat"@ ==> (r matches TrayAction::EmitAndShow(e) && e@ == "tray-new-chat"@),
        id@ == "toggle_yolo"@ ==> (r matches TrayAction::EmitAndShow(e) && e@ == "tray-toggle-yolo"@),
        id@ == "quit"@ ==> r is Quit,
        !(id@ == "show"@ || id@ == "new_chat"@ || id@ == "toggle_yolo"@ || id@ == "quit"@)
            ==> r is Nothing,
{
    proof {
        reveal_strlit("show");
        reveal_strlit("new_chat");
        reveal_strlit("toggle_yolo");
        reveal_strlit("quit");
        assert("show"@[0] != "quit"@[0]);
        assert("show"@.len() != "new_chat"@.len() && "show"@.len() != "toggle_yolo"@.len());
        assert("new_chat"@.len() != "toggle_yolo"@.len());
    }
    if str_is(id, "show") {
        TrayAction::ToggleWindow
    } else if str_is(id, "new_chat") {
        TrayAction::EmitAndShow(String::from_str("tray-new-chat"))
    } else if str_is(id, "toggle_yolo") {
        TrayAction::EmitAndShow(String::from_str("tray-toggle-yolo"))
    } else if str_is(id, "quit") {
        TrayAction::Quit
    } else {
        TrayAction::Nothing
    }
}

/// Toggling the main window: a window known to be shown is hidden; a hidden
/// one, or one whose state cannot be read, is shown.
pub fn toggle_window_action(visible: Option<bool>) -> (r: WindowAction)
    ensures
        (visible == Some(true)) == (r is Hide),
{
    match visible {
        Some(true) => WindowAction::Hide,
        _ => WindowAction::Show,
    }
}

} // verus!
