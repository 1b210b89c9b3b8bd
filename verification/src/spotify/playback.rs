//! Remote playback: what the account's player state means for the progress
//! bar, and the profile's avatar.
use vstd::prelude::*;

use crate::spotify::images::{pick_image_spec, pick_image_url};
use crate::spotify::types::{CurrentPlaybackResponse, SpotifyImage};
use crate::text::{strip_prefix, strip_prefix_str};

verus! {

/// The avatar size the header asks for.
pub const PROFILE_IMAGE_TARGET_PX: u32 = 96;

/// The status with which the player says that nothing is playing.
pub const NO_CONTENT: u16 = 204;

/// The progress shown for the account's player: position (0 where unknown),
/// duration and whether it plays; nothing where no item is loaded.
pub open spec fn remote_progress_spec(p: CurrentPlaybackResponse) -> Option<(u32, u32, bool)> {
    match p.item {
        Some(item) => Some((
            match p.progress_ms { Some(ms) => ms, None => 0 },
            item.duration_ms,
            p.is_playing,
        )),
        None => None,
    }
}

/// The progress of the account's player.
pub fn remote_progress(p: &CurrentPlaybackResponse) -> (r: Option<(u32, u32, bool)>)
    ensures
        r == remote_progress_spec(*p),
{
    match &p.item {
        Some(item) => Some((
            match p.progress_ms {
                Some(ms) => ms,
                None => 0,
            },
            item.duration_ms,
            p.is_playing,
        )),
        None => None,
    }
}

/// The remote progress bar shows the player's own position and the playing
/// item's duration, and whether it plays; a missing position counts as the
/// start; with no item there is nothing to show.
pub proof fn law_remote_progress_shows_player_position(p: CurrentPlaybackResponse)
    ensures
        p.item is None <==> remote_progress_spec(p) is None,
        match (p.item, remote_progress_spec(p)) {
            (Some(it), Some(r)) => {
                &&& r.1 == it.duration_ms
                &&& r.2 == p.is_playing
                &&& (match p.progress_ms {
                    Some(x) => r.0 == x,
                    None => r.0 == 0,
                })
            },
            _ => true,
        },
{
}

/// The avatar to fetch: the profile image closest to the header's size.
pub fn profile_image_url(images: &Vec<SpotifyImage>) -> (url: Option<String>)
    ensures
        match url {
            Some(u) => pick_image_spec(images@, PROFILE_IMAGE_TARGET_PX) == Some(u@),
            None => pick_image_spec(images@, PROFILE_IMAGE_TARGET_PX) is None,
        },
{
    pick_image_url(images, PROFILE_IMAGE_TARGET_PX)
}

/// Whether a response's content type announces an image (`image/...`);
/// a response without one does not.
pub fn is_image_content_type(content_type: &Option<String>) -> (b: bool)
    ensures
        b == match content_type {
            Some(t) => strip_prefix(t@, "image/"@) is Some,
            None => false,
        },
{
    match content_type {
        Some(t) => strip_prefix_str(t.as_str(), "image/").is_some(),
        None => false,
    }
}

} // verus!
