//! Tray-event dispatch.
//!
//! The tray exposes exactly one menu action, `quit`, and toggles the
//! window on a left-button mouse-up click on the icon. Every other menu
//! id, button, button state or event kind falls through as a no-op.

use vstd::prelude::*;

use crate::text::str_eq;

verus! {

/// The mouse button of a tray click.
#[derive(Clone, Copy, Debug, PartialEq, Eq, Structural)]
pub enum TrayMouseButton {
    Left,
    Right,
    Middle,
}

/// The button state of a tray click.
#[derive(Clone, Copy, Debug, PartialEq, Eq, Structural)]
pub enum TrayButtonState {
    Up,
    Down,
}

/// A tray notification delivered by the host: a menu selection by id, a
/// click on the icon, or any other event kind.
#[derive(Debug, PartialEq, Eq)]
pub enum TrayEvent {
    Menu(String),
    Click(TrayMouseButton, TrayButtonState),
    Other,
}

/// What the host must do with a tray notification.
#[derive(Clone, Copy, Debug, PartialEq, Eq, Structural)]
pub enum TrayAction {
    Quit { exit_code: i32 },
    ToggleVisibility,
    Ignore,
}

/// The id of the single menu item.
pub fn quit_menu_id() -> (r: &'static str)
    ensures
        r@ == "quit"@,
{
    "quit"
}

/// The label of the single menu item.
pub fn quit_menu_label() -> (r: &'static str)
    ensures
        r@ == "Quit"@,
{
    "Quit"
}

/// Decides the action for one tray notification: the `quit` menu entry
/// terminates with exit code 0, a left-button mouse-up click toggles the
/// window, and everything else is ignored.
pub fn dispatch_tray_event(event: &TrayEvent) -> (r: TrayAction)
    ensures
        (event matches TrayEvent::Menu(id) && id@ == "quit"@) ==> r == (TrayAction::Quit {
            exit_code: 0,
        }),
        (event matches TrayEvent::Menu(id) && id@ != "quit"@) ==> r == TrayAction::Ignore,
        (event matches TrayEvent::Click(b, s) ==> r == (if b == TrayMouseButton::Left && s
            == TrayButtonState::Up {
            TrayAction::ToggleVisibility
        } else {
            TrayAction::Ignore
        })),
        event is Other ==> r == TrayAction::Ignore,
{
    match event {
        TrayEvent::Menu(id) => {
            if str_eq(id.as_str(), "quit") {
                TrayAction::Quit { exit_code: 0 }
            } else {
                TrayAction::Ignore
            }
        },
        TrayEvent::Click(button, state) => {
            match (button, state) {
                (TrayMouseButton::Left, TrayButtonState::Up) => TrayAction::ToggleVisibility,
                _ => TrayAction::Ignore,
            }
        },
        TrayEvent::Other => TrayAction::Ignore,
    }
}

} // verus!
