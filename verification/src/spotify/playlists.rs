//! Playlists: which of the user's playlists can take tracks, a playlist's
//! track list, and the checks around creating and editing playlists.
use vstd::prelude::*;

use crate::messages::{opt_view, Track};
use crate::spotify::fields::{first_image_url, first_url, join_artist_names, joined_artists};
use crate::spotify::types::{PlaylistItem, PlaylistTrackObject, PlaylistTrackWrapper};
use crate::spotify::SpotifyPlaylist;
use crate::text::{owned, str_eq};

verus! {

/// How many tracks one page of a playlist asks for.
pub const PLAYLIST_TRACKS_PAGE_SIZE: usize = 50;

/// The most track URIs one add request may carry.
pub const MAX_URIS_PER_REQUEST: usize = 100;

/// Whether the user owns the playlist.
pub open spec fn owned_by(owner: Option<Seq<char>>, user: Seq<char>) -> bool {
    owner == Some(user)
}

/// Whether the user can add tracks: as its owner, or because it is
/// collaborative.
pub open spec fn writable(item: PlaylistItem, user: Seq<char>) -> bool {
    let owner = match item.owner { Some(o) => Some(o.id@), None => None };
    owned_by(owner, user) || item.collaborative == Some(true)
}

/// A playlist of the list is offered where it has an id and is writable.
pub open spec fn offered(item: Option<PlaylistItem>, user: Seq<char>) -> bool {
    item matches Some(p) && p.id is Some && writable(p, user)
}

/// The playlist as offered: its name (empty where missing), first image
/// and track total (0 where missing).
pub open spec fn playlist_of(item: PlaylistItem, p: SpotifyPlaylist) -> bool {
    &&& p.id == item.id->0
    &&& p.name@ == match item.name { Some(n) => n@, None => Seq::<char>::empty() }
    &&& opt_view(p.image_url) == first_image_url(item.images@)
    &&& p.track_count == match item.tracks { Some(t) => match t.total { Some(n) => n, None => 0 }, None => 0 }
}

/// The offered items of the list, in order.
pub open spec fn offered_items(items: Seq<Option<PlaylistItem>>, user: Seq<char>) -> Seq<PlaylistItem>
    decreases items.len(),
{
    if items.len() == 0 {
        Seq::empty()
    } else if offered(items.last(), user) {
        offered_items(items.drop_last(), user).push(items.last()->0)
    } else {
        offered_items(items.drop_last(), user)
    }
}

fn is_writable(item: &PlaylistItem, user: &str) -> (w: bool)
    ensures
        w == writable(*item, user@),
{
    let is_owner = match &item.owner {
        Some(o) => str_eq(o.id.as_str(), user),
        None => false,
    };
    let is_collaborative = match item.collaborative {
        Some(c) => c,
        None => false,
    };
    is_owner || is_collaborative
}

/// The playlist shown for an item that has an id.
fn playlist_from_item(item: &PlaylistItem, id: String) -> (p: SpotifyPlaylist)
    requires
        item.id == Some(id),
    ensures
        playlist_of(*item, p),
{
    let name = match &item.name {
        Some(n) => n.clone(),
        None => String::new(),
    };
    let track_count = match &item.tracks {
        Some(t) => match t.total {
            Some(n) => n,
            None => 0,
        },
        None => 0,
    };
    SpotifyPlaylist { id, name, image_url: first_url(&item.images), track_count }
}

/// The playlists the user can add tracks to (Spotify also lists those the
/// user only follows): those with an id that the user owns or that are
/// collaborative.
pub fn writable_playlists(items: &Vec<Option<PlaylistItem>>, current_user_id: &str) -> (out: Vec<SpotifyPlaylist>)
    ensures
        out@.len() == offered_items(items@, current_user_id@).len(),
        forall|i: int| 0 <= i < out@.len() ==> playlist_of(offered_items(items@, current_user_id@)[i], #[trigger] out@[i]),
{
    let mut out: Vec<SpotifyPlaylist> = Vec::new();
    let mut i: usize = 0;
    while i < items.len()
        invariant
            i <= items.len(),
            out@.len() == offered_items(items@.take(i as int), current_user_id@).len(),
            forall|j: int| 0 <= j < out@.len() ==> playlist_of(offered_items(items@.take(i as int), current_user_id@)[j], #[trigger] out@[j]),
        decreases items.len() - i,
    {
        assert(items@.take(i + 1).drop_last() =~= items@.take(i as int));
        if let Some(item) = &items[i] {
            if let Some(id) = &item.id {
                if is_writable(item, current_user_id) {
                    out.push(playlist_from_item(item, id.clone()));
                }
            }
        }
        i += 1;
    }
    assert(items@.take(items@.len() as int) =~= items@);
    out
}

/// The playlist a create request returned, or the error that it has no id.
pub fn playlist_from_created(item: &PlaylistItem) -> (r: Result<SpotifyPlaylist, String>)
    ensures
        item.id is Some ==> (r matches Ok(p) && playlist_of(*item, p)),
        item.id is None ==> (r matches Err(m) && m@ == "Spotify create playlist returned no playlist ID"@),
{
    match &item.id {
        Some(id) => Ok(playlist_from_item(item, id.clone())),
        None => Err(owned("Spotify create playlist returned no playlist ID")),
    }
}

/// Refuses a change to a playlist the user neither owns nor collaborates on.
pub fn check_playlist_writable(owner_id: &Option<String>, collaborative: Option<bool>, current_user_id: &str) -> (r: Result<(), String>)
    ensures
        r is Ok <==> (owned_by(opt_view(*owner_id), current_user_id@) || collaborative == Some(true)),
        r matches Err(m) ==> m@ == "Playlist is not writable by this account (not owner and not collaborative)."@,
{
    let is_owner = match owner_id {
        Some(o) => str_eq(o.as_str(), current_user_id),
        None => false,
    };
    let is_collaborative = match collaborative {
        Some(c) => c,
        None => false,
    };
    if !is_owner && !is_collaborative {
        return Err(owned("Playlist is not writable by this account (not owner and not collaborative)."));
    }
    Ok(())
}

/// Checks the track URIs of an add request: at least one, at most 100.
pub fn validate_add_uris(uris: &Vec<String>) -> (r: Result<(), String>)
    ensures
        uris@.len() == 0 ==> (r matches Err(m) && m@ == "Spotify add tracks requires at least one track URI"@),
        uris@.len() > MAX_URIS_PER_REQUEST ==> (r matches Err(m)
            && m@ == "Spotify add tracks supports up to 100 track URIs per request"@),
        r is Ok <==> 0 < uris@.len() <= MAX_URIS_PER_REQUEST,
{
    if uris.len() == 0 {
        return Err(owned("Spotify add tracks requires at least one track URI"));
    }
    if uris.len() > MAX_URIS_PER_REQUEST {
        return Err(owned("Spotify add tracks supports up to 100 track URIs per request"));
    }
    Ok(())
}

/// Checks the track URIs of a remove request: at least one.
pub fn validate_remove_uris(uris: &Vec<String>) -> (r: Result<(), String>)
    ensures
        r is Ok <==> uris@.len() > 0,
        r matches Err(m) ==> m@ == "Spotify remove tracks requires at least one track URI"@,
{
    if uris.len() == 0 {
        return Err(owned("Spotify remove tracks requires at least one track URI"));
    }
    Ok(())
}

/// Checks that an edit returned a snapshot id; `adding` tells an add from
/// a remove in the message.
pub fn check_snapshot(snapshot_id: &str, adding: bool) -> (r: Result<(), String>)
    ensures
        r is Ok <==> snapshot_id@.len() > 0,
        r matches Err(m) ==> m@ == if adding {
            "Spotify add tracks returned an empty snapshot_id"@
        } else {
            "Spotify remove tracks returned an empty snapshot_id"@
        },
{
    if crate::text::chars_of(snapshot_id).len() == 0 {
        if adding {
            return Err(owned("Spotify add tracks returned an empty snapshot_id"));
        } else {
            return Err(owned("Spotify remove tracks returned an empty snapshot_id"));
        }
    }
    Ok(())
}

// ----------------------------------------------------------- track lists
/// The object of an entry: under its new key, else under its old one.
pub open spec fn entry_object(w: PlaylistTrackWrapper) -> Option<PlaylistTrackObject> {
    match w.item {
        Some(o) => Some(o),
        None => w.track,
    }
}

/// Whether an entry is a playable track: its object is of type `track` and
/// has an id.
pub open spec fn is_playlist_track(w: PlaylistTrackWrapper) -> bool {
    entry_object(w) matches Some(o) && opt_view(o.item_type) == Some("track"@) && o.id is Some
}

/// The track shown for an entry: all artists joined, the album's first image.
pub open spec fn track_of_entry(w: PlaylistTrackWrapper, t: Track) -> bool {
    let o = entry_object(w)->0;
    &&& t.id == o.id->0 && t.name == o.name
    &&& t.artist@ == joined_artists(o.artists@)
    &&& t.duration_ms == o.duration_ms
    &&& opt_view(t.album_image_url) == first_image_url(o.album.images@)
    &&& t.album_playback_image_url is None && t.album_image_key is None
}

/// The playable entries, in order.
pub open spec fn playlist_tracks_kept(ws: Seq<PlaylistTrackWrapper>) -> Seq<PlaylistTrackWrapper>
    decreases ws.len(),
{
    if ws.len() == 0 {
        Seq::empty()
    } else if is_playlist_track(ws.last()) {
        playlist_tracks_kept(ws.drop_last()).push(ws.last())
    } else {
        playlist_tracks_kept(ws.drop_last())
    }
}

/// The tracks of a page of a playlist (episodes and local files left out).
pub fn map_playlist_tracks(entries: &Vec<PlaylistTrackWrapper>) -> (tracks: Vec<Track>)
    ensures
        tracks@.len() == playlist_tracks_kept(entries@).len(),
        forall|i: int| 0 <= i < tracks@.len() ==> track_of_entry(playlist_tracks_kept(entries@)[i], #[trigger] tracks@[i]),
{
    let mut tracks: Vec<Track> = Vec::new();
    let mut i: usize = 0;
    while i < entries.len()
        invariant
            i <= entries.len(),
            tracks@.len() == playlist_tracks_kept(entries@.take(i as int)).len(),
            forall|j: int| 0 <= j < tracks@.len() ==> track_of_entry(playlist_tracks_kept(entries@.take(i as int))[j], #[trigger] tracks@[j]),
        decreases entries.len() - i,
    {
        assert(entries@.take(i + 1).drop_last() =~= entries@.take(i as int));
        let w = &entries[i];
        let obj: Option<&PlaylistTrackObject> = match &w.item {
            Some(o) => Some(o),
            None => match &w.track {
                Some(o) => Some(o),
                None => None,
            },
        };
        if let Some(o) = obj {
            let is_track = match &o.item_type {
                Some(t) => str_eq(t.as_str(), "track"),
                None => false,
            };
            if is_track {
                if let Some(id) = &o.id {
                    tracks.push(Track {
                        id: id.clone(),
                        name: o.name.clone(),
                        artist: join_artist_names(&o.artists),
                        duration_ms: o.duration_ms,
                        album_image_url: first_url(&o.album.images),
                        album_playback_image_url: None,
                        album_image_key: None,
                    });
                }
            }
        }
        i += 1;
    }
    assert(entries@.take(entries@.len() as int) =~= entries@);
    tracks
}

} // verus!
