//! Albums: an album's track list, the album a track belongs to, and an
//! album's release year.
use vstd::prelude::*;

use crate::messages::{clone_opt_string, opt_view, Album, Track};
use crate::spotify::fields::{artist_label, first_artist_name, join_artist_names, joined_artists};
use crate::spotify::images::{pick_image_spec, pick_image_url};
use crate::spotify::types::{AlbumTrackObject, TrackLookupAlbum};
use crate::text::{before_char, parse_u32, parse_u32_spec, split_on_char, str_eq};

verus! {

/// The image size the album view asks for.
pub const ALBUM_IMAGE_TARGET_PX: u32 = 160;

/// How many tracks one page of an album's track list asks for.
pub const ALBUM_TRACKS_PAGE_SIZE: usize = 50;

/// Whether an item of an album's track list is a playable track: of type
/// `track` and with an id.
pub open spec fn is_album_track(item: AlbumTrackObject) -> bool {
    opt_view(item.item_type) == Some("track"@) && item.id is Some
}

/// The track shown for an album's item: all artists joined, no artwork.
pub open spec fn track_of_album_item(item: AlbumTrackObject, t: Track) -> bool {
    &&& t.id == item.id->0 && t.name == item.name
    &&& t.artist@ == joined_artists(item.artists@)
    &&& t.duration_ms == item.duration_ms
    &&& t.album_image_url is None && t.album_playback_image_url is None && t.album_image_key is None
}

/// The playable items, in order.
pub open spec fn album_tracks_kept(items: Seq<AlbumTrackObject>) -> Seq<AlbumTrackObject>
    decreases items.len(),
{
    if items.len() == 0 {
        Seq::empty()
    } else if is_album_track(items.last()) {
        album_tracks_kept(items.drop_last()).push(items.last())
    } else {
        album_tracks_kept(items.drop_last())
    }
}

/// The tracks of a page of an album's track list.
pub fn map_album_tracks(items: &Vec<AlbumTrackObject>) -> (tracks: Vec<Track>)
    ensures
        tracks@.len() == album_tracks_kept(items@).len(),
        forall|i: int| 0 <= i < tracks@.len() ==> track_of_album_item(album_tracks_kept(items@)[i], #[trigger] tracks@[i]),
{
    let mut tracks: Vec<Track> = Vec::new();
    let mut i: usize = 0;
    while i < items.len()
        invariant
            i <= items.len(),
            tracks@.len() == album_tracks_kept(items@.take(i as int)).len(),
            forall|j: int| 0 <= j < tracks@.len() ==> track_of_album_item(album_tracks_kept(items@.take(i as int))[j], #[trigger] tracks@[j]),
        decreases items.len() - i,
    {
        assert(items@.take(i + 1).drop_last() =~= items@.take(i as int));
        let item = &items[i];
        let is_track = match &item.item_type {
            Some(t) => str_eq(t.as_str(), "track"),
            None => false,
        };
        if is_track {
            if let Some(id) = &item.id {
                tracks.push(Track {
                    id: id.clone(),
                    name: item.name.clone(),
                    artist: join_artist_names(&item.artists),
                    duration_ms: item.duration_ms,
                    album_image_url: None,
                    album_playback_image_url: None,
                    album_image_key: None,
                });
            }
        }
        i += 1;
    }
    assert(items@.take(items@.len() as int) =~= items@);
    tracks
}

/// The album a track belongs to, as the album view shows it.
pub fn album_from_lookup(album: &TrackLookupAlbum) -> (a: Album)
    ensures
        a.id == album.id,
        a.name == album.name,
        a.artist@ == artist_label(album.artists@),
        a.release_date == album.release_date,
        opt_view(a.image_url) == pick_image_spec(album.images@, ALBUM_IMAGE_TARGET_PX),
        a.image_key is None,
{
    Album {
        id: album.id.clone(),
        name: album.name.clone(),
        artist: first_artist_name(&album.artists),
        release_date: clone_opt_string(&album.release_date),
        image_url: pick_image_url(&album.images, ALBUM_IMAGE_TARGET_PX),
        image_key: None,
    }
}

/// The year of a release date: the part before its first `-`, read as a
/// number.
pub open spec fn release_year_spec(date: Option<Seq<char>>) -> Option<u32> {
    match date {
        Some(d) => parse_u32_spec(before_char(d, '-')),
        None => None,
    }
}

/// The year of a release date (`2019-05-01` gives 2019; `2019` too).
pub fn release_year(date: &Option<String>) -> (year: Option<u32>)
    ensures
        year == release_year_spec(opt_view(*date)),
{
    match date {
        Some(d) => {
            let parts = split_on_char(d.as_str(), '-');
            proof { crate::text::lemma_split_char_nonempty(d@, '-'); }
            assert(parts@.map_values(|p: String| p@)[0] == parts@[0]@);
            parse_u32(parts[0].as_str())
        },
        None => None,
    }
}

} // verus!
