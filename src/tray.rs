use vstd::prelude::*;

verus! {

/// The mouse button of a click on the tray icon.
#[derive(Clone, Copy, Debug, PartialEq, Eq)]
pub enum PointerButton {
    Left,
    Right,
    Middle,
}

/// What the window manager is asked to do after a click on the tray icon.
#[derive(Clone, Copy, Debug, PartialEq, Eq)]
pub enum TrayAction {
    /// Leave the window as it is.
    Ignore,
    /// Hide the main window.
    Hide,
    /// Show the main window and give it the focus.
    ShowAndFocus,
}

/// The reaction to a click: a left click toggles the main window, anything
/// else, or a click while there is no main window, changes nothing.
pub open spec fn click_reaction(button: PointerButton, window_visible: Option<bool>) -> TrayAction {
    match button {
        PointerButton::Left => match window_visible {
            Some(true) => TrayAction::Hide,
            Some(false) => TrayAction::ShowAndFocus,
            None => TrayAction::Ignore,
        },
        _ => TrayAction::Ignore,
    }
}

/// Decides what a click on the tray icon does; `window_visible` is `None`
/// when the main window does not exist.
pub fn tray_click_action(button: PointerButton, window_visible: Option<bool>) -> (r: TrayAction)
    ensures
        r == click_reaction(button, window_visible),
{
    match button {
        PointerButton::Left => match window_visible {
            Some(true) => TrayAction::Hide,
            Some(false) => TrayAction::ShowAndFocus,
            None => TrayAction::Ignore,
        },
        _ => TrayAction::Ignore,
    }
}

} // verus!
