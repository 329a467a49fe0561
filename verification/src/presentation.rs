//! Presentation of a microphone state, and tray-menu routing.
//!
//! The tray has two visual states, muted and active. Every artifact shown for
//! a state (icon kind, tooltip, menu label) is derived here from the state
//! most recently confirmed by a volume operation, never from a speculative
//! one. Menu events arrive as opaque identifier strings and are routed to the
//! action they stand for.

use vstd::prelude::*;

use crate::types::MicrophoneState;

verus! {

/// The two visual states of the tray.
#[derive(Clone, Copy, Debug, PartialEq, Eq, Structural)]
pub enum VisualState {
    Muted,
    Active,
}

/// The visual state that presents a microphone state.
pub fn visual_state(state: MicrophoneState) -> (r: VisualState)
    ensures
        r == (if state.is_muted {
            VisualState::Muted
        } else {
            VisualState::Active
        }),
{
    if state.is_muted {
        VisualState::Muted
    } else {
        VisualState::Active
    }
}

/// The tray tooltip for a mute flag.
pub fn tooltip(is_muted: bool) -> (r: &'static str)
    ensures
        is_muted ==> r@ == "Microphone: Muted (Click to unmute)"@,
        !is_muted ==> r@ == "Microphone: Active (Click to mute)"@,
{
    if is_muted {
        "Microphone: Muted (Click to unmute)"
    } else {
        "Microphone: Active (Click to mute)"
    }
}

/// The toggle menu item's label for a mute flag.
pub fn menu_label(is_muted: bool) -> (r: &'static str)
    ensures
        is_muted ==> r@ == "Unmute Mic"@,
        !is_muted ==> r@ == "Mute Mic"@,
{
    if is_muted {
        "Unmute Mic"
    } else {
        "Mute Mic"
    }
}

/// What a tray menu event asks for.
#[derive(Clone, Copy, Debug, PartialEq, Eq, Structural)]
pub enum MenuAction {
    ToggleMicrophone,
    ShowWindow,
    Quit,
    Ignore,
}

/// The action a menu event identifier is routed to. An identifier that no
/// handler claims (among them the settings item) is ignored.
pub open spec fn spec_menu_action(id: Seq<char>) -> MenuAction {
    if id == "toggle_microphone"@ {
        MenuAction::ToggleMicrophone
    } else if id == "show_window"@ {
        MenuAction::ShowWindow
    } else if id == "quit"@ {
        MenuAction::Quit
    } else {
        MenuAction::Ignore
    }
}

/// Whether two strings hold the same characters.
fn str_eq(a: &str, b: &str) -> (r: bool)
    ensures
        r == (a@ == b@),
{
    let a_owned: String = a.to_owned();
    let b_owned: String = b.to_owned();
    a_owned == b_owned
}

/// Routes a menu event identifier to its action.
pub fn menu_action(event_id: &str) -> (r: MenuAction)
    ensures
        r == spec_menu_action(event_id@),
{
    if str_eq(event_id, "toggle_microphone") {
        MenuAction::ToggleMicrophone
    } else if str_eq(event_id, "show_window") {
        MenuAction::ShowWindow
    } else if str_eq(event_id, "quit") {
        MenuAction::Quit
    } else {
        MenuAction::Ignore
    }
}

} // verus!
