//! The messages of the system tray menu and what the application does with them.
use vstd::prelude::*;

verus! {

/// A choice made in the tray menu.
#[derive(Debug, Clone, Copy, PartialEq, Eq, Structural)]
pub enum TrayMessage {
    OpenWindow,
    Quit,
}

/// What the application does for a tray message.
#[derive(Debug, Clone, Copy, PartialEq, Eq, Structural)]
pub enum TrayResponse {
    /// Quit the application and stop listening to the tray.
    Quit,
    /// Open the main window, as none is open.
    OpenMainWindow,
    /// Bring the first open window to the front, restoring it if minimized.
    ActivateFirstWindow,
}

/// What to do for a tray message, given whether a window is open.
pub fn respond_to_tray(message: TrayMessage, window_open: bool) -> (r: TrayResponse)
    ensures
        message == TrayMessage::Quit ==> r == TrayResponse::Quit,
        message == TrayMessage::OpenWindow && !window_open ==> r == TrayResponse::OpenMainWindow,
        message == TrayMessage::OpenWindow && window_open ==> r == TrayResponse::ActivateFirstWindow,
{
    match message {
        TrayMessage::Quit => TrayResponse::Quit,
        TrayMessage::OpenWindow => if window_open {
            TrayResponse::ActivateFirstWindow
        } else {
            TrayResponse::OpenMainWindow
        },
    }
}

} // verus!
