//! Page identifiers of the center and right panels, and the status line.
use vstd::prelude::*;

use crate::ui::events::SystemEvent;

verus! {

/// The page shown in the center panel.
#[derive(Clone, Copy, Debug, PartialEq, Eq, Structural)]
pub enum CenterPage {
    Search,
    PlaylistTracks,
    AlbumTracks,
    Artist,
}

/// The page shown in the right panel.
#[derive(Clone, Copy, Debug, PartialEq, Eq, Structural)]
pub enum RightPanelPage {
    Queue,
    RecentlyPlayed,
}

/// The status line the interface starts with.
pub open spec fn initial_status() -> Seq<char> {
    "Initializing..."@
}

/// The status line after an application-wide notice: once ready without a
/// valid login it asks to log in (and stays as it was with one); a message
/// replaces it; an error replaces it with `Error: ` and the error.
pub open spec fn status_after(status: Seq<char>, event: SystemEvent, auth_valid: bool) -> Seq<char> {
    match event {
        SystemEvent::Ready => if auth_valid { status } else { "Not logged in. Click Login with Spotify to continue."@ },
        SystemEvent::StatusMessage(m) => m@,
        SystemEvent::Error(e) => "Error: "@ + e@,
    }
}

/// The status line the interface starts with.
pub fn initial_status_line() -> (s: String)
    ensures
        s@ == initial_status(),
{
    crate::text::owned("Initializing...")
}

/// Takes in an application-wide notice.
pub fn apply_system_event(status: &mut String, event: SystemEvent, auth_valid: bool)
    ensures
        final(status)@ == status_after(old(status)@, event, auth_valid),
{
    match event {
        SystemEvent::Ready => {
            if !auth_valid {
                *status = crate::text::owned("Not logged in. Click Login with Spotify to continue.");
            }
        },
        SystemEvent::StatusMessage(m) => {
            *status = m;
        },
        SystemEvent::Error(e) => {
            *status = crate::ui::format::error_status(e.as_str());
        },
    }
}

} // verus!
