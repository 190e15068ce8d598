//! The event loop of the window that hosts the wallpaper: what each event asks of it.
use vstd::prelude::*;
use crate::shell::Size;

verus! {

/// What the host's event loop receives.
pub enum HostEvent {
    /// The manager asks the wallpaper to stop.
    Stop,
    /// The host window's client area took a new size.
    Resized(Size),
    /// The event loop is being torn down.
    Destroyed,
    /// Anything else.
    Other,
}

/// What the host does in answer to one event; the loop otherwise keeps waiting.
pub struct HostReaction {
    pub hide_window: bool,
    pub exit: bool,
    /// The web view is set to cover the client area at this size.
    pub resize_webview: Option<Size>,
    pub refresh_desktop: bool,
}

/// A stop hides the window and ends the loop; a resize makes the web view cover the
/// new client area; the end of the loop refreshes the desktop; nothing else happens.
pub fn on_host_event(event: HostEvent) -> (r: HostReaction)
    ensures
        r.hide_window == (event is Stop),
        r.exit == (event is Stop),
        r.refresh_desktop == (event is Destroyed),
        match event {
            HostEvent::Resized(size) => r.resize_webview == Some(size),
            _ => r.resize_webview is None,
        },
{
    match event {
        HostEvent::Stop => HostReaction {
            hide_window: true,
            exit: true,
            resize_webview: None,
            refresh_desktop: false,
        },
        HostEvent::Resized(size) => HostReaction {
            hide_window: false,
            exit: false,
            resize_webview: Some(size),
            refresh_desktop: false,
        },
        HostEvent::Destroyed => HostReaction {
            hide_window: false,
            exit: false,
            resize_webview: None,
            refresh_desktop: true,
        },
        HostEvent::Other => HostReaction {
            hide_window: false,
            exit: false,
            resize_webview: None,
            refresh_desktop: false,
        },
    }
}

} // verus!
