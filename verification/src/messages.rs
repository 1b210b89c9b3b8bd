//! The records that flow between the catalog, the queue and the views.
use vstd::prelude::*;

verus! {

/// A playable track as the library keeps it.
#[derive(Debug, PartialEq, Eq)]
pub struct Track {
    pub id: String,
    pub name: String,
    pub artist: String,
    pub duration_ms: u32,
    pub album_image_url: Option<String>,
    pub album_playback_image_url: Option<String>,
    pub album_image_key: Option<String>,
}

impl Clone for Track {
    fn clone(&self) -> (out: Self)
        ensures
            out == *self,
    {
        Track {
            id: self.id.clone(),
            name: self.name.clone(),
            artist: self.artist.clone(),
            duration_ms: self.duration_ms,
            album_image_url: clone_opt_string(&self.album_image_url),
            album_playback_image_url: clone_opt_string(&self.album_playback_image_url),
            album_image_key: clone_opt_string(&self.album_image_key),
        }
    }
}

/// An artist as shown in search results and on the artist page.
#[derive(Debug, PartialEq, Eq)]
pub struct Artist {
    pub id: String,
    pub name: String,
    pub image_url: Option<String>,
    pub image_key: Option<String>,
}

impl Clone for Artist {
    fn clone(&self) -> (out: Self)
        ensures
            out == *self,
    {
        Artist {
            id: self.id.clone(),
            name: self.name.clone(),
            image_url: clone_opt_string(&self.image_url),
            image_key: clone_opt_string(&self.image_key),
        }
    }
}

/// An album as shown in search results and on the artist page.
#[derive(Debug, PartialEq, Eq)]
pub struct Album {
    pub id: String,
    pub name: String,
    pub artist: String,
    pub release_date: Option<String>,
    pub image_url: Option<String>,
    pub image_key: Option<String>,
}

impl Clone for Album {
    fn clone(&self) -> (out: Self)
        ensures
            out == *self,
    {
        Album {
            id: self.id.clone(),
            name: self.name.clone(),
            artist: self.artist.clone(),
            release_date: clone_opt_string(&self.release_date),
            image_url: clone_opt_string(&self.image_url),
            image_key: clone_opt_string(&self.image_key),
        }
    }
}

/// The three result lists of a catalog search.
#[derive(Debug)]
pub struct SearchResultsData {
    pub tracks: Vec<Track>,
    pub artists: Vec<Artist>,
    pub albums: Vec<Album>,
}

impl SearchResultsData {
    /// Empty results.
    pub fn new() -> (out: Self)
        ensures
            out.tracks@.len() == 0,
            out.artists@.len() == 0,
            out.albums@.len() == 0,
    {
        SearchResultsData { tracks: Vec::new(), artists: Vec::new(), albums: Vec::new() }
    }
}

/// A playlist row of the sidebar.
#[derive(Debug, PartialEq, Eq)]
pub struct PlaylistEntry {
    pub id: String,
    pub name: String,
    pub image_key: Option<String>,
    pub track_count: usize,
    pub total_duration_ms: u64,
}

impl Clone for PlaylistEntry {
    fn clone(&self) -> (out: Self)
        ensures
            out == *self,
    {
        PlaylistEntry {
            id: self.id.clone(),
            name: self.name.clone(),
            image_key: clone_opt_string(&self.image_key),
            track_count: self.track_count,
            total_duration_ms: self.total_duration_ms,
        }
    }
}

/// A copy of an optional string.
pub fn clone_opt_string(s: &Option<String>) -> (out: Option<String>)
    ensures
        out == *s,
{
    match s {
        Some(v) => Some(v.clone()),
        None => None,
    }
}

/// The view of an optional string.
pub open spec fn opt_view(s: Option<String>) -> Option<Seq<char>> {
    match s {
        Some(v) => Some(v@),
        None => None,
    }
}

/// A copy of a vector of tracks.
pub fn clone_tracks(v: &Vec<Track>) -> (out: Vec<Track>)
    ensures
        out@ == v@,
{
    let mut out: Vec<Track> = Vec::new();
    let mut i: usize = 0;
    while i < v.len()
        invariant
            i <= v.len(),
            out@ == v@.take(i as int),
        decreases v.len() - i,
    {
        out.push(v[i].clone());
        i += 1;
        assert(out@ =~= v@.take(i as int));
    }
    assert(v@.take(v.len() as int) =~= v@);
    out
}

/// A copy of a vector of albums.
pub fn clone_albums(v: &Vec<Album>) -> (out: Vec<Album>)
    ensures
        out@ == v@,
{
    let mut out: Vec<Album> = Vec::new();
    let mut i: usize = 0;
    while i < v.len()
        invariant
            i <= v.len(),
            out@ == v@.take(i as int),
        decreases v.len() - i,
    {
        out.push(v[i].clone());
        i += 1;
        assert(out@ =~= v@.take(i as int));
    }
    assert(v@.take(v.len() as int) =~= v@);
    out
}

/// A copy of a vector of artists.
pub fn clone_artists(v: &Vec<Artist>) -> (out: Vec<Artist>)
    ensures
        out@ == v@,
{
    let mut out: Vec<Artist> = Vec::new();
    let mut i: usize = 0;
    while i < v.len()
        invariant
            i <= v.len(),
            out@ == v@.take(i as int),
        decreases v.len() - i,
    {
        out.push(v[i].clone());
        i += 1;
        assert(out@ =~= v@.take(i as int));
    }
    assert(v@.take(v.len() as int) =~= v@);
    out
}

/// A copy of a vector of playlist rows.
pub fn clone_entries(v: &Vec<PlaylistEntry>) -> (out: Vec<PlaylistEntry>)
    ensures
        out@ == v@,
{
    let mut out: Vec<PlaylistEntry> = Vec::new();
    let mut i: usize = 0;
    while i < v.len()
        invariant
            i <= v.len(),
            out@ == v@.take(i as int),
        decreases v.len() - i,
    {
        out.push(v[i].clone());
        i += 1;
        assert(out@ =~= v@.take(i as int));
    }
    assert(v@.take(v.len() as int) =~= v@);
    out
}

} // verus!
