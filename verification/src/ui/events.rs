//! The events each part of the interface reacts to.
use vstd::prelude::*;

use crate::messages::{
    Album, Artist, PlaylistEntry, SearchResultsData, Track, clone_albums, clone_artists, clone_opt_string,
    clone_tracks, opt_view,
};
use crate::ui::model_data::{CenterPage, RightPanelPage};

verus! {

/// Events of the playback bar and the queue.
///
/// The slider values are integers here: the volume is a whole percent and the
/// scrub position is in basis points of the track (0 to 10 000).
#[derive(Debug)]
pub enum PlaybackEvent {
    SelectQueueTrack(usize),
    AddToQueue(Vec<Track>),
    ShuffleQueue,
    ClearQueue,
    ClearRecentlyPlayed,
    Previous,
    Toggle,
    Resume,
    Play,
    Stop,
    Pause,
    Next,
    SetVolume(u8),
    ToggleMute,
    SetScrub(u32),
    OpenAlbumFromPlayback {
        track_id: Option<String>,
        image_key: Option<String>,
        image_url: Option<String>,
    },
    SessionReady,
    LocalTrackEnded,
    Progress {
        position_ms: u32,
        duration_ms: u32,
        is_playing: bool,
    },
    ArtworkLoaded {
        image_key: Option<String>,
    },
}

} // verus!

verus! {

/// Navigation of the center panel.
#[derive(Clone, Copy, Debug)]
pub enum CenterPanelEvent {
    NavigateTo(CenterPage),
    NavigateBack,
    NavigateForward,
}

/// Navigation of the right panel.
#[derive(Clone, Copy, Debug)]
pub enum RightPanelEvent {
    NavigateTo(RightPanelPage),
}

} // verus!

verus! {

/// Events of the playlist sidebar and the playlist page.
#[derive(Debug)]
pub enum PlaylistsEvent {
    OpenCreatePlaylistModal,
    CloseCreatePlaylistModal,
    SetCreatePlaylistName(String),
    SubmitCreatePlaylist,
    OpenRenamePlaylistModal {
        id: String,
        name: String,
    },
    CloseRenamePlaylistModal,
    SetRenamePlaylistName(String),
    SubmitRenamePlaylist,
    DeletePlaylist(String),
    AddTrackToPlaylist {
        track_id: String,
        playlist_id: String,
    },
    RemoveTrackFromPlaylist {
        track_id: String,
        playlist_id: String,
    },
    SelectPlaylist(usize),
    AddPlaylistToQueue,
    PlayPlaylist,
    PlaylistTrackSelected(usize),
    ShufflePlaylist,
    SetTrackFilter(String),
    Playlists(Vec<PlaylistEntry>),
    HydrateUserPlaylistsArtwork {
        playlists: Vec<PlaylistEntry>,
        artwork_urls: Vec<Option<String>>,
    },
    RefreshUserPlaylists,
    RefreshPlaylistTracks {
        request_id: u64,
        id: String,
        name: String,
    },
    PlaylistCreated {
        id: String,
        name: String,
    },
    PlaylistCreateFailed(String),
    PlaylistRenamed {
        id: String,
        name: String,
    },
    PlaylistRenameFailed(String),
    PlaylistDeleted(String),
    PlaylistDeleteFailed(String),
    PlaylistTracks {
        request_id: u64,
        id: String,
        name: String,
        tracks: Vec<Track>,
        track_count: usize,
        total_duration_ms: u64,
    },
}

} // verus!

verus! {

/// A loaded album, ready for the album page.
#[derive(Debug)]
pub struct AlbumTracksData {
    pub id: String,
    pub name: String,
    pub artist: String,
    pub image_url: Option<String>,
    pub image_key: Option<String>,
    pub tracks: Vec<Track>,
    pub release_year: Option<u32>,
    pub track_count: usize,
    pub total_duration_ms: u64,
}

/// The mathematical value of an `AlbumTracksData`.
pub struct AlbumTracksView {
    pub id: Seq<char>,
    pub name: Seq<char>,
    pub artist: Seq<char>,
    pub image_url: Option<Seq<char>>,
    pub image_key: Option<Seq<char>>,
    pub tracks: Seq<Track>,
    pub release_year: Option<u32>,
    pub track_count: usize,
    pub total_duration_ms: u64,
}

impl View for AlbumTracksData {
    type V = AlbumTracksView;

    open spec fn view(&self) -> AlbumTracksView {
        AlbumTracksView {
            id: self.id@,
            name: self.name@,
            artist: self.artist@,
            image_url: opt_view(self.image_url),
            image_key: opt_view(self.image_key),
            tracks: self.tracks@,
            release_year: self.release_year,
            track_count: self.track_count,
            total_duration_ms: self.total_duration_ms,
        }
    }
}

impl AlbumTracksData {
    /// A copy.
    pub fn duplicate(&self) -> (out: Self)
        ensures
            out@ == self@,
    {
        AlbumTracksData {
            id: self.id.clone(),
            name: self.name.clone(),
            artist: self.artist.clone(),
            image_url: clone_opt_string(&self.image_url),
            image_key: clone_opt_string(&self.image_key),
            tracks: clone_tracks(&self.tracks),
            release_year: self.release_year,
            track_count: self.track_count,
            total_duration_ms: self.total_duration_ms,
        }
    }
}

/// The mathematical value of a `SearchResultsData`.
pub struct SearchResultsView {
    pub tracks: Seq<Track>,
    pub artists: Seq<Artist>,
    pub albums: Seq<Album>,
}

/// The view of search results.
pub open spec fn results_view(r: SearchResultsData) -> SearchResultsView {
    SearchResultsView { tracks: r.tracks@, artists: r.artists@, albums: r.albums@ }
}

/// A copy of search results.
pub fn clone_results(r: &SearchResultsData) -> (out: SearchResultsData)
    ensures
        results_view(out) == results_view(*r),
{
    SearchResultsData {
        tracks: clone_tracks(&r.tracks),
        artists: clone_artists(&r.artists),
        albums: clone_albums(&r.albums),
    }
}

/// Events of the search page.
#[derive(Debug)]
pub enum SearchEvent {
    SelectTab(usize),
    SelectTrack(usize),
    SelectArtist(usize),
    SelectAlbum(usize),
    OpenAlbumFromTrack(String),
    OpenArtistFromTrack(String),
    SetInput(String),
    SubmitQuery(String),
    Results(SearchResultsData),
    HydrateArtwork(SearchResultsData),
    LoadAlbumTracks(Album),
    HydrateAlbumArtwork(AlbumTracksData),
    HydrateArtistArtwork {
        id: String,
        name: String,
        image_url: Option<String>,
        albums: Vec<Album>,
    },
}

/// Events of the album page.
#[derive(Debug)]
pub enum AlbumEvent {
    AlbumTracks(AlbumTracksData),
    AlbumTrackSelected(usize),
    PlayAlbum,
    ToggleShuffleAlbum,
}

/// Events of the artist page.
#[derive(Debug)]
pub enum ArtistEvent {
    ArtistView {
        id: String,
        name: String,
        image_key: Option<String>,
        albums: Vec<Album>,
    },
    ArtistAlbumSelected(usize),
}

/// Events of the login flow.
#[derive(Debug)]
pub enum OAuthEvents {
    OpenLoginModal,
    CloseLoginModal,
    ResetLogin,
    SetLoginClientId(String),
    StartOAuthLogin,
    RefreshToken,
    BrowserOpened,
    LoginComplete {
        username: String,
        profile_image_key: Option<String>,
    },
    LoggedOut,
}

/// Application-wide notices.
#[derive(Debug)]
pub enum SystemEvent {
    Ready,
    StatusMessage(String),
    Error(String),
}

} // verus!
