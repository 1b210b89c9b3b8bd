//! The catalog search: its three result pages and how they become tracks,
//! artists and albums.
use vstd::prelude::*;

use crate::messages::{opt_view, Album, Artist, SearchResultsData, Track};
use crate::spotify::fields::{artist_label, first_artist_name};
use crate::spotify::images::{pick_image_spec, pick_image_url, pick_largest_image_url, pick_largest_spec};
use crate::spotify::types::{AlbumSearchItem, ArtistSearchItem, SearchTrackItem};

verus! {

/// The image size of a track row.
pub const SEARCH_TRACK_LIST_IMAGE_TARGET_PX: u32 = 64;

/// The image size of an artist row.
pub const SEARCH_LIST_IMAGE_TARGET_PX: u32 = 64;

/// The image size of an album tile.
pub const SEARCH_ALBUM_IMAGE_TARGET_PX: u32 = 160;

/// How many results each of the three searches asks for.
pub const SEARCH_PAGE_LIMIT: u32 = 10;

/// The track shown for a track result: the first artist's name, a row-sized
/// album image and the largest one for the player.
pub open spec fn track_of_item(item: SearchTrackItem, t: Track) -> bool {
    &&& t.id == item.id && t.name == item.name
    &&& t.artist@ == artist_label(item.artists@)
    &&& t.duration_ms == item.duration_ms
    &&& opt_view(t.album_image_url) == pick_image_spec(item.album.images@, SEARCH_TRACK_LIST_IMAGE_TARGET_PX)
    &&& opt_view(t.album_playback_image_url) == pick_largest_spec(item.album.images@)
    &&& t.album_image_key is None
}

/// The artist shown for an artist result, with a row-sized image.
pub open spec fn artist_of_item(item: ArtistSearchItem, a: Artist) -> bool {
    &&& a.id == item.id && a.name == item.name
    &&& opt_view(a.image_url) == pick_image_spec(item.images@, SEARCH_LIST_IMAGE_TARGET_PX)
    &&& a.image_key is None
}

/// The album shown for an album result, with a tile-sized image.
pub open spec fn album_of_item(item: AlbumSearchItem, a: Album) -> bool {
    &&& a.id == item.id && a.name == item.name
    &&& a.artist@ == artist_label(item.artists@)
    &&& a.release_date == item.release_date
    &&& opt_view(a.image_url) == pick_image_spec(item.images@, SEARCH_ALBUM_IMAGE_TARGET_PX)
    &&& a.image_key is None
}

/// The tracks of a track result page, in order.
pub fn map_search_tracks(items: &Vec<SearchTrackItem>) -> (tracks: Vec<Track>)
    ensures
        tracks@.len() == items@.len(),
        forall|i: int| 0 <= i < items@.len() ==> track_of_item(items@[i], #[trigger] tracks@[i]),
{
    let mut tracks: Vec<Track> = Vec::new();
    let mut i: usize = 0;
    while i < items.len()
        invariant
            i <= items.len(),
            tracks@.len() == i,
            forall|j: int| 0 <= j < i ==> track_of_item(items@[j], #[trigger] tracks@[j]),
        decreases items.len() - i,
    {
        let item = &items[i];
        tracks.push(Track {
            id: item.id.clone(),
            name: item.name.clone(),
            artist: first_artist_name(&item.artists),
            duration_ms: item.duration_ms,
            album_image_url: pick_image_url(&item.album.images, SEARCH_TRACK_LIST_IMAGE_TARGET_PX),
            album_playback_image_url: pick_largest_image_url(&item.album.images),
            album_image_key: None,
        });
        i += 1;
    }
    tracks
}

/// The artists of an artist result page, in order.
pub fn map_search_artists(items: &Vec<ArtistSearchItem>) -> (artists: Vec<Artist>)
    ensures
        artists@.len() == items@.len(),
        forall|i: int| 0 <= i < items@.len() ==> artist_of_item(items@[i], #[trigger] artists@[i]),
{
    let mut artists: Vec<Artist> = Vec::new();
    let mut i: usize = 0;
    while i < items.len()
        invariant
            i <= items.len(),
            artists@.len() == i,
            forall|j: int| 0 <= j < i ==> artist_of_item(items@[j], #[trigger] artists@[j]),
        decreases items.len() - i,
    {
        let item = &items[i];
        artists.push(Artist {
            id: item.id.clone(),
            name: item.name.clone(),
            image_url: pick_image_url(&item.images, SEARCH_LIST_IMAGE_TARGET_PX),
            image_key: None,
        });
        i += 1;
    }
    artists
}

/// The albums of an album result page, in order.
pub fn map_search_albums(items: &Vec<AlbumSearchItem>) -> (albums: Vec<Album>)
    ensures
        albums@.len() == items@.len(),
        forall|i: int| 0 <= i < items@.len() ==> album_of_item(items@[i], #[trigger] albums@[i]),
{
    let mut albums: Vec<Album> = Vec::new();
    let mut i: usize = 0;
    while i < items.len()
        invariant
            i <= items.len(),
            albums@.len() == i,
            forall|j: int| 0 <= j < i ==> album_of_item(items@[j], #[trigger] albums@[j]),
        decreases items.len() - i,
    {
        let item = &items[i];
        albums.push(Album {
            id: item.id.clone(),
            name: item.name.clone(),
            artist: first_artist_name(&item.artists),
            release_date: crate::messages::clone_opt_string(&item.release_date),
            image_url: pick_image_url(&item.images, SEARCH_ALBUM_IMAGE_TARGET_PX),
            image_key: None,
        });
        i += 1;
    }
    albums
}

/// `d` holds the three pages mapped in order.
pub open spec fn results_of(
    t: Seq<SearchTrackItem>,
    a: Seq<ArtistSearchItem>,
    b: Seq<AlbumSearchItem>,
    d: SearchResultsData,
) -> bool {
    &&& d.tracks@.len() == t.len() && d.artists@.len() == a.len() && d.albums@.len() == b.len()
    &&& forall|i: int| 0 <= i < t.len() ==> track_of_item(t[i], #[trigger] d.tracks@[i])
    &&& forall|i: int| 0 <= i < a.len() ==> artist_of_item(a[i], #[trigger] d.artists@[i])
    &&& forall|i: int| 0 <= i < b.len() ==> album_of_item(b[i], #[trigger] d.albums@[i])
}

/// The three result pages as one search result: the first page that failed
/// (tracks, then artists, then albums) fails the search with its message;
/// otherwise each page mapped in order.
pub fn search_results(
    tracks: Result<Vec<SearchTrackItem>, String>,
    artists: Result<Vec<ArtistSearchItem>, String>,
    albums: Result<Vec<AlbumSearchItem>, String>,
) -> (r: Result<SearchResultsData, String>)
    ensures
        tracks is Err ==> r == Err::<SearchResultsData, String>(tracks->Err_0),
        tracks is Ok && artists is Err ==> r == Err::<SearchResultsData, String>(artists->Err_0),
        tracks is Ok && artists is Ok && albums is Err ==> r == Err::<SearchResultsData, String>(albums->Err_0),
        tracks is Ok && artists is Ok && albums is Ok ==> (r matches Ok(d)
            && results_of(tracks->Ok_0@, artists->Ok_0@, albums->Ok_0@, d)),
{
    let t = match tracks {
        Ok(t) => t,
        Err(e) => return Err(e),
    };
    let a = match artists {
        Ok(a) => a,
        Err(e) => return Err(e),
    };
    let b = match albums {
        Ok(b) => b,
        Err(e) => return Err(e),
    };
    Ok(SearchResultsData {
        tracks: map_search_tracks(&t),
        artists: map_search_artists(&a),
        albums: map_search_albums(&b),
    })
}

} // verus!
