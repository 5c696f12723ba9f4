//! What the tray icon and its menu ask of the main window.

use crate::text::same_text;
use vstd::prelude::*;

verus! {

/// What is to be done with the application or its main window.
#[derive(Debug, Clone, Copy, PartialEq, Eq, Structural)]
pub enum TrayAction {
    /// Leave the application.
    Quit,
    /// Show the main window and give it the focus.
    Show,
    /// Hide the main window.
    Hide,
    /// Nothing.
    Nothing,
}

/// What the menu item called `id` asks for.
pub open spec fn menu_action_of(id: Seq<char>) -> TrayAction {
    if id == "quit"@ {
        TrayAction::Quit
    } else if id == "show"@ {
        TrayAction::Show
    } else if id == "hide"@ {
        TrayAction::Hide
    } else {
        TrayAction::Nothing
    }
}

/// What the menu item called `id` asks for: `quit`, `show` and `hide` each
/// what they say, any other item nothing.
pub fn menu_action(id: &str) -> (action: TrayAction)
    ensures
        action == menu_action_of(id@),
{
    if same_text(id, "quit") {
        TrayAction::Quit
    } else if same_text(id, "show") {
        TrayAction::Show
    } else if same_text(id, "hide") {
        TrayAction::Hide
    } else {
        TrayAction::Nothing
    }
}

/// What a click on the tray icon asks for: the main window is shown when
/// the left button is let go, and nothing happens on any other click.
pub fn click_action(left_button: bool, released: bool) -> (action: TrayAction)
    ensures
        action == (if left_button && released {
            TrayAction::Show
        } else {
            TrayAction::Nothing
        }),
{
    if left_button && released {
        TrayAction::Show
    } else {
        TrayAction::Nothing
    }
}

} // verus!
