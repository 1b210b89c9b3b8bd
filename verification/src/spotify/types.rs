//! The parts of the Web API payloads that the library reads.
use vstd::prelude::*;

verus! {

/// An image reference with its optional size.
#[derive(Debug)]
pub struct SpotifyImage {
    pub url: String,
    pub width: Option<u32>,
    pub height: Option<u32>,
}

/// An artist credit.
#[derive(Debug)]
pub struct SearchArtist {
    pub name: String,
}

/// An album's images, as embedded in a track.
#[derive(Debug)]
pub struct AlbumSummary {
    pub images: Vec<SpotifyImage>,
}

/// A track of a track search.
#[derive(Debug)]
pub struct SearchTrackItem {
    pub id: String,
    pub name: String,
    pub artists: Vec<SearchArtist>,
    pub duration_ms: u32,
    pub album: AlbumSummary,
}

/// An artist of an artist search.
#[derive(Debug)]
pub struct ArtistSearchItem {
    pub id: String,
    pub name: String,
    pub images: Vec<SpotifyImage>,
}

/// An album of an album search.
#[derive(Debug)]
pub struct AlbumSearchItem {
    pub id: String,
    pub name: String,
    pub artists: Vec<SearchArtist>,
    pub release_date: Option<String>,
    pub images: Vec<SpotifyImage>,
}

/// A playlist's owner.
#[derive(Debug)]
pub struct PlaylistOwner {
    pub id: String,
}

/// A playlist's track count.
#[derive(Debug)]
pub struct PlaylistTrackCount {
    pub total: Option<usize>,
}

/// A playlist of the user's playlist list.
#[derive(Debug)]
pub struct PlaylistItem {
    pub id: Option<String>,
    pub name: Option<String>,
    pub owner: Option<PlaylistOwner>,
    pub collaborative: Option<bool>,
    pub public: Option<bool>,
    pub images: Vec<SpotifyImage>,
    pub tracks: Option<PlaylistTrackCount>,
}

/// A track or episode of a playlist page.
#[derive(Debug)]
pub struct PlaylistTrackObject {
    pub item_type: Option<String>,
    pub id: Option<String>,
    pub name: String,
    pub artists: Vec<SearchArtist>,
    pub duration_ms: u32,
    pub album: AlbumSummary,
}

/// An entry of a playlist page: the item under its new or its old key.
#[derive(Debug)]
pub struct PlaylistTrackWrapper {
    pub item: Option<PlaylistTrackObject>,
    pub track: Option<PlaylistTrackObject>,
}

/// A track of an album's track list.
#[derive(Debug)]
pub struct AlbumTrackObject {
    pub id: Option<String>,
    pub name: String,
    pub artists: Vec<SearchArtist>,
    pub duration_ms: u32,
    pub item_type: Option<String>,
}

/// An album of an artist's album list.
#[derive(Debug)]
pub struct ArtistAlbumItem {
    pub id: String,
    pub name: String,
    pub artists: Vec<SearchArtist>,
    pub release_date: Option<String>,
    pub images: Vec<SpotifyImage>,
    pub album_group: Option<String>,
}

/// The album a track belongs to.
#[derive(Debug)]
pub struct TrackLookupAlbum {
    pub id: String,
    pub name: String,
    pub artists: Vec<SearchArtist>,
    pub release_date: Option<String>,
    pub images: Vec<SpotifyImage>,
}

/// An artist credit with its id.
#[derive(Debug)]
pub struct TrackArtist {
    pub id: String,
    pub name: String,
}

/// The current playback of the account.
#[derive(Debug)]
pub struct CurrentPlaybackResponse {
    pub is_playing: bool,
    pub progress_ms: Option<u32>,
    pub item: Option<PlaybackItem>,
}

/// The item that is playing.
#[derive(Debug)]
pub struct PlaybackItem {
    pub duration_ms: u32,
}

/// A device of the account's device list.
#[derive(Debug)]
pub struct PlaybackDevice {
    pub id: Option<String>,
    pub name: String,
    pub is_active: bool,
}

} // verus!
