//! The Spotify Web API side of the library: the payload types, and the
//! rules that turn payloads into tracks, albums, artists and playlists.
use vstd::prelude::*;

pub mod albums;
pub mod fields;
pub mod artists;
pub mod images;
pub mod paging;
pub mod playback;
pub mod playlists;
pub mod request;
pub mod search;
pub mod types;

verus! {

/// The signed-in user's profile.
#[derive(Debug)]
pub struct SpotifyProfile {
    pub display_name: Option<String>,
    pub image_bytes: Option<Vec<u8>>,
}

/// A playlist the user can add tracks to.
#[derive(Debug)]
pub struct SpotifyPlaylist {
    pub id: String,
    pub name: String,
    pub image_url: Option<String>,
    pub track_count: usize,
}

/// The credentials the Web API calls are made with.
#[derive(Debug)]
pub struct SpotifyService {
    pub access_token: Option<String>,
}

impl SpotifyService {
    /// Not signed in.
    pub fn new() -> (s: Self)
        ensures
            s.access_token is None,
    {
        SpotifyService { access_token: None }
    }

    /// Uses `token` for the following calls.
    pub fn set_access_token(&mut self, token: String)
        ensures
            final(self).access_token == Some(token),
    {
        self.access_token = Some(token);
    }

    /// Forgets the token.
    pub fn clear_access_token(&mut self)
        ensures
            final(self).access_token is None,
    {
        self.access_token = None;
    }

    /// The token to call with, or the error that there is none.
    pub fn access_token(&self) -> (r: Result<String, String>)
        ensures
            match self.access_token {
                Some(t) => r == Ok::<String, String>(t),
                None => r is Err && r->Err_0@ == "No token provided"@,
            },
    {
        match &self.access_token {
            Some(t) => Ok(t.clone()),
            None => Err(crate::text::owned("No token provided")),
        }
    }
}

} // verus!
