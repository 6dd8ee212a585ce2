use vstd::prelude::*;

verus! {

/// The events that the tray hands to the application's main loop.
#[derive(Clone, Copy, Debug, PartialEq, Eq, Structural)]
pub enum GUIMessage {
    ShowWindow,
    QuitApplication,
}

/// The two entries of the tray menu.
#[derive(Clone, Copy, Debug, PartialEq, Eq, Structural)]
pub enum MenuAction {
    Open,
    Quit,
}

/// The event that activating a menu entry produces.
pub open spec fn action_event(action: MenuAction) -> GUIMessage {
    match action {
        MenuAction::Open => GUIMessage::ShowWindow,
        MenuAction::Quit => GUIMessage::QuitApplication,
    }
}

/// Maps a menu entry to the one event that its activation sends.
pub fn event_for(action: MenuAction) -> (m: GUIMessage)
    ensures
        m == action_event(action),
{
    match action {
        MenuAction::Open => GUIMessage::ShowWindow,
        MenuAction::Quit => GUIMessage::QuitApplication,
    }
}

} // verus!
