//! The Web API requests the library makes: method, URL, query, body and
//! the token they carry. Sending them and reading the answers is left to
//! the HTTP client; the payloads that come back are turned into tracks,
//! albums and playlists by the other modules.
use vstd::prelude::*;
use vstd::string::StringSliceAdditionalSpecFns;

use crate::oauth::form_view;
use crate::spotify::fields::{api_url, clamp_limit, url_encoded};
use crate::spotify::SpotifyService;
use crate::text::{decimal, owned, u64_to_decimal};

verus! {

/// The HTTP method of a request.
#[derive(Clone, Copy, Debug, PartialEq, Eq, Structural)]
pub enum HttpMethod {
    Get,
    Post,
    Put,
    Delete,
}

/// The JSON document a request sends.
#[derive(Debug)]
pub enum JsonBody {
    /// `{"name": .., "public": .., "collaborative": ..}`
    CreatePlaylist { name: String, public: bool, collaborative: bool },
    /// `{"name": ..}`
    Rename { name: String },
    /// `{"uris": [..]}`
    Uris(Vec<String>),
    /// `{"items": [{"uri": ..}, ..]}`
    RemoveItems(Vec<String>),
    /// `{"device_ids": [..], "play": ..}`
    TransferPlayback { device_id: String, play: bool },
}

/// What a request sends after its headers.
#[derive(Debug)]
pub enum RequestBody {
    /// Nothing.
    NoBody,
    /// An empty body announced with `Content-Length: 0`.
    Empty,
    /// A JSON document.
    Json(JsonBody),
}

/// A request to the Web API, authorized by `token`.
#[derive(Debug)]
pub struct ApiRequest {
    pub method: HttpMethod,
    pub url: String,
    pub query: Vec<(String, String)>,
    pub token: String,
    pub body: RequestBody,
}

/// The request has this method, URL, query and token.
pub open spec fn shaped(r: ApiRequest, m: HttpMethod, url: Seq<char>, query: Seq<(Seq<char>, Seq<char>)>, token: Seq<char>) -> bool {
    &&& r.method == m
    &&& r.url@ == url
    &&& form_view(r.query@) == query
    &&& r.token@ == token
}

/// Without a token the service refuses to build the request; with one, the
/// request has this shape and carries that token.
pub open spec fn built(s: SpotifyService, r: Result<ApiRequest, String>, m: HttpMethod, url: Seq<char>, query: Seq<(Seq<char>, Seq<char>)>) -> bool {
    match s.access_token {
        None => r matches Err(e) && e@ == "No token provided"@,
        Some(t) => r matches Ok(req) && shaped(req, m, url, query, t@),
    }
}

/// An API address for an object: `prefix`, the percent-encoded id, then `rest`.
pub open spec fn api_for(prefix: Seq<char>, id: &str, rest: Seq<char>) -> Seq<char> {
    prefix + url_encoded(id.spec_bytes()) + rest
}

fn pair(name: &str, value: &str) -> (p: (String, String))
    ensures
        p.0@ == name@,
        p.1@ == value@,
{
    (owned(name), owned(value))
}

fn no_query() -> (q: Vec<(String, String)>)
    ensures
        q@.len() == 0,
        form_view(q@) == Seq::<(Seq<char>, Seq<char>)>::empty(),
{
    let q: Vec<(String, String)> = Vec::new();
    assert(form_view(q@) =~= Seq::<(Seq<char>, Seq<char>)>::empty());
    q
}

fn one_pair(n: &str, v: &str) -> (q: Vec<(String, String)>)
    ensures
        form_view(q@) == seq![(n@, v@)],
{
    let mut q: Vec<(String, String)> = Vec::new();
    q.push(pair(n, v));
    assert(form_view(q@) =~= seq![(n@, v@)]);
    q
}

fn request(s: &SpotifyService, method: HttpMethod, url: String, query: Vec<(String, String)>, body: RequestBody) -> (r: Result<ApiRequest, String>)
    ensures
        built(*s, r, method, url@, form_view(query@)),
        r matches Ok(req) ==> req.body == body,
{
    match s.access_token() {
        Ok(token) => Ok(ApiRequest { method, url, query, token, body }),
        Err(e) => Err(e),
    }
}

impl SpotifyService {
    /// The signed-in user (`GET /me`).
    pub fn me_request(&self) -> (r: Result<ApiRequest, String>)
        ensures
            built(*self, r, HttpMethod::Get, "https://api.spotify.com/v1/me"@, Seq::empty()),
            r matches Ok(req) ==> req.body is NoBody,
    {
        request(self, HttpMethod::Get, owned("https://api.spotify.com/v1/me"), no_query(), RequestBody::NoBody)
    }

    /// One of the three catalog searches: `kind` is `track`, `artist` or
    /// `album`; ten results, and for tracks the page at `offset`.
    pub fn search_request(&self, query: &str, kind: &str, offset: Option<u32>) -> (r: Result<ApiRequest, String>)
        ensures
            built(*self, r, HttpMethod::Get, "https://api.spotify.com/v1/search"@, match offset {
                Some(o) => seq![("q"@, query@), ("type"@, kind@), ("limit"@, "10"@), ("offset"@, decimal(o as nat))],
                None => seq![("q"@, query@), ("type"@, kind@), ("limit"@, "10"@)],
            }),
            r matches Ok(req) ==> req.body is NoBody,
    {
        let mut q: Vec<(String, String)> = Vec::new();
        q.push(pair("q", query));
        q.push(pair("type", kind));
        q.push(pair("limit", "10"));
        if let Some(o) = offset {
            let os = u64_to_decimal(o as u64);
            q.push(pair("offset", os.as_str()));
            assert(form_view(q@) =~= seq![("q"@, query@), ("type"@, kind@), ("limit"@, "10"@), ("offset"@, decimal(o as nat))]);
        } else {
            assert(form_view(q@) =~= seq![("q"@, query@), ("type"@, kind@), ("limit"@, "10"@)]);
        }
        request(self, HttpMethod::Get, owned("https://api.spotify.com/v1/search"), q, RequestBody::NoBody)
    }

    /// The account's playback devices.
    pub fn devices_request(&self) -> (r: Result<ApiRequest, String>)
        ensures
            built(*self, r, HttpMethod::Get, "https://api.spotify.com/v1/me/player/devices"@, Seq::empty()),
            r matches Ok(req) ==> req.body is NoBody,
    {
        request(self, HttpMethod::Get, owned("https://api.spotify.com/v1/me/player/devices"), no_query(), RequestBody::NoBody)
    }

    /// The user's playlists, `limit` kept within 1..=50.
    pub fn user_playlists_request(&self, limit: usize) -> (r: Result<ApiRequest, String>)
        ensures
            built(*self, r, HttpMethod::Get, "https://api.spotify.com/v1/me/playlists"@, seq![
                ("limit"@, decimal((if limit < 1 { 1 } else if limit > 50 { 50 } else { limit }) as nat)),
            ]),
            r matches Ok(req) ==> req.body is NoBody,
    {
        let bounded = clamp_limit(limit, 1, 50);
        let ls = u64_to_decimal(bounded as u64);
        request(self, HttpMethod::Get, owned("https://api.spotify.com/v1/me/playlists"), one_pair("limit", ls.as_str()), RequestBody::NoBody)
    }

    /// A page of a playlist's tracks: `limit` kept within 1..=50, from
    /// `offset`, only the fields the track list reads.
    pub fn playlist_tracks_page_request(&self, playlist_id: &str, limit: usize, offset: usize) -> (r: Result<ApiRequest, String>)
        ensures
            built(*self, r, HttpMethod::Get, api_for("https://api.spotify.com/v1/playlists/"@, playlist_id, "/items"@), seq![
                ("limit"@, decimal((if limit < 1 { 1 } else if limit > 50 { 50 } else { limit }) as nat)),
                ("offset"@, decimal(offset as nat)),
                ("market"@, "from_token"@),
                ("additional_types"@, "track"@),
                ("fields"@, PLAYLIST_TRACK_FIELDS@),
            ]),
            r matches Ok(req) ==> req.body is NoBody,
    {
        let url = api_url("https://api.spotify.com/v1/playlists/", playlist_id, "/items");
        let bounded = clamp_limit(limit, 1, 50);
        let ls = u64_to_decimal(bounded as u64);
        let os = u64_to_decimal(offset as u64);
        let mut q: Vec<(String, String)> = Vec::new();
        q.push(pair("limit", ls.as_str()));
        q.push(pair("offset", os.as_str()));
        q.push(pair("market", "from_token"));
        q.push(pair("additional_types", "track"));
        q.push(pair("fields", PLAYLIST_TRACK_FIELDS));
        assert(form_view(q@) =~= seq![
            ("limit"@, decimal((if limit < 1 { 1 } else if limit > 50 { 50 } else { limit }) as nat)),
            ("offset"@, decimal(offset as nat)),
            ("market"@, "from_token"@),
            ("additional_types"@, "track"@),
            ("fields"@, PLAYLIST_TRACK_FIELDS@),
        ]);
        request(self, HttpMethod::Get, url, q, RequestBody::NoBody)
    }

    /// A playlist's owner and collaborative flag.
    pub fn playlist_permissions_request(&self, playlist_id: &str) -> (r: Result<ApiRequest, String>)
        ensures
            built(*self, r, HttpMethod::Get, api_for("https://api.spotify.com/v1/playlists/"@, playlist_id, ""@), seq![
                ("fields"@, "owner(id),collaborative"@),
            ]),
            r matches Ok(req) ==> req.body is NoBody,
    {
        let url = api_url("https://api.spotify.com/v1/playlists/", playlist_id, "");
        request(self, HttpMethod::Get, url, one_pair("fields", "owner(id),collaborative"), RequestBody::NoBody)
    }

    /// Creates a private, not collaborative playlist named `name`.
    pub fn create_playlist_request(&self, name: &str) -> (r: Result<ApiRequest, String>)
        ensures
            built(*self, r, HttpMethod::Post, "https://api.spotify.com/v1/me/playlists"@, Seq::empty()),
            r matches Ok(req) ==> (req.body matches RequestBody::Json(JsonBody::CreatePlaylist { name: n, public, collaborative })
                && n@ == name@ && !public && !collaborative),
    {
        let body = RequestBody::Json(JsonBody::CreatePlaylist { name: owned(name), public: false, collaborative: false });
        request(self, HttpMethod::Post, owned("https://api.spotify.com/v1/me/playlists"), no_query(), body)
    }

    /// Renames a playlist.
    pub fn rename_playlist_request(&self, playlist_id: &str, name: &str) -> (r: Result<ApiRequest, String>)
        ensures
            built(*self, r, HttpMethod::Put, api_for("https://api.spotify.com/v1/playlists/"@, playlist_id, ""@), Seq::empty()),
            r matches Ok(req) ==> (req.body matches RequestBody::Json(JsonBody::Rename { name: n }) && n@ == name@),
    {
        let url = api_url("https://api.spotify.com/v1/playlists/", playlist_id, "");
        request(self, HttpMethod::Put, url, no_query(), RequestBody::Json(JsonBody::Rename { name: owned(name) }))
    }

    /// Stops following (deletes, for its owner) a playlist.
    pub fn unfollow_playlist_request(&self, playlist_id: &str) -> (r: Result<ApiRequest, String>)
        ensures
            built(*self, r, HttpMethod::Delete, api_for("https://api.spotify.com/v1/playlists/"@, playlist_id, "/followers"@), Seq::empty()),
            r matches Ok(req) ==> req.body is NoBody,
    {
        let url = api_url("https://api.spotify.com/v1/playlists/", playlist_id, "/followers");
        request(self, HttpMethod::Delete, url, no_query(), RequestBody::NoBody)
    }

    /// Adds tracks to a playlist.
    pub fn add_tracks_request(&self, playlist_id: &str, track_uris: Vec<String>) -> (r: Result<ApiRequest, String>)
        ensures
            built(*self, r, HttpMethod::Post, api_for("https://api.spotify.com/v1/playlists/"@, playlist_id, "/items"@), Seq::empty()),
            r matches Ok(req) ==> (req.body matches RequestBody::Json(JsonBody::Uris(u)) && u@ == track_uris@),
    {
        let url = api_url("https://api.spotify.com/v1/playlists/", playlist_id, "/items");
        request(self, HttpMethod::Post, url, no_query(), RequestBody::Json(JsonBody::Uris(track_uris)))
    }

    /// Removes tracks from a playlist.
    pub fn remove_tracks_request(&self, playlist_id: &str, track_uris: Vec<String>) -> (r: Result<ApiRequest, String>)
        ensures
            built(*self, r, HttpMethod::Delete, api_for("https://api.spotify.com/v1/playlists/"@, playlist_id, "/items"@), Seq::empty()),
            r matches Ok(req) ==> (req.body matches RequestBody::Json(JsonBody::RemoveItems(u)) && u@ == track_uris@),
    {
        let url = api_url("https://api.spotify.com/v1/playlists/", playlist_id, "/items");
        request(self, HttpMethod::Delete, url, no_query(), RequestBody::Json(JsonBody::RemoveItems(track_uris)))
    }

    /// A page of an album's tracks (50 from `offset`).
    pub fn album_tracks_page_request(&self, album_id: &str, offset: usize) -> (r: Result<ApiRequest, String>)
        ensures
            built(*self, r, HttpMethod::Get, api_for("https://api.spotify.com/v1/albums/"@, album_id, "/tracks"@), seq![
                ("limit"@, "50"@),
                ("offset"@, decimal(offset as nat)),
                ("market"@, "from_token"@),
            ]),
            r matches Ok(req) ==> req.body is NoBody,
    {
        let url = api_url("https://api.spotify.com/v1/albums/", album_id, "/tracks");
        let os = u64_to_decimal(offset as u64);
        let mut q: Vec<(String, String)> = Vec::new();
        q.push(pair("limit", "50"));
        q.push(pair("offset", os.as_str()));
        q.push(pair("market", "from_token"));
        assert(form_view(q@) =~= seq![("limit"@, "50"@), ("offset"@, decimal(offset as nat)), ("market"@, "from_token"@)]);
        request(self, HttpMethod::Get, url, q, RequestBody::NoBody)
    }

    /// A track, with its album and artists.
    pub fn track_request(&self, track_id: &str) -> (r: Result<ApiRequest, String>)
        ensures
            built(*self, r, HttpMethod::Get, api_for("https://api.spotify.com/v1/tracks/"@, track_id, ""@), seq![("market"@, "from_token"@)]),
            r matches Ok(req) ==> req.body is NoBody,
    {
        let url = api_url("https://api.spotify.com/v1/tracks/", track_id, "");
        request(self, HttpMethod::Get, url, one_pair("market", "from_token"), RequestBody::NoBody)
    }

    /// An album's release date.
    pub fn album_release_date_request(&self, album_id: &str) -> (r: Result<ApiRequest, String>)
        ensures
            built(*self, r, HttpMethod::Get, api_for("https://api.spotify.com/v1/albums/"@, album_id, ""@), seq![("fields"@, "release_date"@)]),
            r matches Ok(req) ==> req.body is NoBody,
    {
        let url = api_url("https://api.spotify.com/v1/albums/", album_id, "");
        request(self, HttpMethod::Get, url, one_pair("fields", "release_date"), RequestBody::NoBody)
    }

    /// An artist.
    pub fn artist_request(&self, artist_id: &str) -> (r: Result<ApiRequest, String>)
        ensures
            built(*self, r, HttpMethod::Get, api_for("https://api.spotify.com/v1/artists/"@, artist_id, ""@), Seq::empty()),
            r matches Ok(req) ==> req.body is NoBody,
    {
        let url = api_url("https://api.spotify.com/v1/artists/", artist_id, "");
        request(self, HttpMethod::Get, url, no_query(), RequestBody::NoBody)
    }

    /// A page of an artist's albums: `limit` kept within 1..=10, from `offset`.
    pub fn artist_albums_page_request(&self, artist_id: &str, limit: usize, offset: usize) -> (r: Result<ApiRequest, String>)
        ensures
            built(*self, r, HttpMethod::Get, api_for("https://api.spotify.com/v1/artists/"@, artist_id, "/albums"@), seq![
                ("include_groups"@, "album"@),
                ("limit"@, decimal((if limit < 1 { 1 } else if limit > 10 { 10 } else { limit }) as nat)),
                ("offset"@, decimal(offset as nat)),
            ]),
            r matches Ok(req) ==> req.body is NoBody,
    {
        let url = api_url("https://api.spotify.com/v1/artists/", artist_id, "/albums");
        let bounded = clamp_limit(limit, 1, 10);
        let ls = u64_to_decimal(bounded as u64);
        let os = u64_to_decimal(offset as u64);
        let mut q: Vec<(String, String)> = Vec::new();
        q.push(pair("include_groups", "album"));
        q.push(pair("limit", ls.as_str()));
        q.push(pair("offset", os.as_str()));
        assert(form_view(q@) =~= seq![
            ("include_groups"@, "album"@),
            ("limit"@, decimal((if limit < 1 { 1 } else if limit > 10 { 10 } else { limit }) as nat)),
            ("offset"@, decimal(offset as nat)),
        ]);
        request(self, HttpMethod::Get, url, q, RequestBody::NoBody)
    }

    /// Plays one track on the active device.
    pub fn play_track_request(&self, track_id: &str) -> (r: Result<ApiRequest, String>)
        ensures
            built(*self, r, HttpMethod::Put, "https://api.spotify.com/v1/me/player/play"@, Seq::empty()),
            r matches Ok(req) ==> (req.body matches RequestBody::Json(JsonBody::Uris(u))
                && u@.len() == 1 && u@[0]@ == "spotify:track:"@ + track_id@),
    {
        let mut uris: Vec<String> = Vec::new();
        uris.push(crate::spotify::fields::track_uri(track_id));
        request(self, HttpMethod::Put, owned("https://api.spotify.com/v1/me/player/play"), no_query(), RequestBody::Json(JsonBody::Uris(uris)))
    }

    /// Resumes the active device.
    pub fn resume_request(&self) -> (r: Result<ApiRequest, String>)
        ensures
            built(*self, r, HttpMethod::Put, "https://api.spotify.com/v1/me/player/play"@, Seq::empty()),
            r matches Ok(req) ==> req.body is Empty,
    {
        request(self, HttpMethod::Put, owned("https://api.spotify.com/v1/me/player/play"), no_query(), RequestBody::Empty)
    }

    /// A player command without arguments: `pause` (PUT), `next` and
    /// `previous` (POST).
    pub fn player_command_request(&self, command: &str, method: HttpMethod) -> (r: Result<ApiRequest, String>)
        ensures
            built(*self, r, method, "https://api.spotify.com/v1/me/player/"@ + command@, Seq::empty()),
            r matches Ok(req) ==> req.body is Empty,
    {
        let url = crate::spotify::fields::player_command_url(command);
        assert(url@ == "https://api.spotify.com/v1/me/player/"@ + command@) by {
            reveal_strlit("https://api.spotify.com/v1/me/player/");
            reveal_strlit("https://api.spotify.com/v1/");
            reveal_strlit("me/player/");
            assert(url@ =~= "https://api.spotify.com/v1/me/player/"@ + command@);
        }
        request(self, method, url, no_query(), RequestBody::Empty)
    }

    /// Sets the active device's volume (at most 100).
    pub fn set_volume_request(&self, volume_percent: u8) -> (r: Result<ApiRequest, String>)
        ensures
            built(*self, r, HttpMethod::Put, "https://api.spotify.com/v1/me/player/volume"@, seq![
                ("volume_percent"@, decimal((if volume_percent <= 100 { volume_percent } else { 100u8 }) as nat)),
            ]),
            r matches Ok(req) ==> req.body is Empty,
    {
        let clamped: u8 = if volume_percent <= 100 { volume_percent } else { 100 };
        let vs = u64_to_decimal(clamped as u64);
        request(self, HttpMethod::Put, owned("https://api.spotify.com/v1/me/player/volume"), one_pair("volume_percent", vs.as_str()), RequestBody::Empty)
    }

    /// Seeks the active device.
    pub fn seek_request(&self, position_ms: u32) -> (r: Result<ApiRequest, String>)
        ensures
            built(*self, r, HttpMethod::Put, "https://api.spotify.com/v1/me/player/seek"@, seq![("position_ms"@, decimal(position_ms as nat))]),
            r matches Ok(req) ==> req.body is Empty,
    {
        let ps = u64_to_decimal(position_ms as u64);
        request(self, HttpMethod::Put, owned("https://api.spotify.com/v1/me/player/seek"), one_pair("position_ms", ps.as_str()), RequestBody::Empty)
    }

    /// Moves playback to a device, without starting it.
    pub fn transfer_playback_request(&self, device_id: &str) -> (r: Result<ApiRequest, String>)
        ensures
            built(*self, r, HttpMethod::Put, "https://api.spotify.com/v1/me/player"@, Seq::empty()),
            r matches Ok(req) ==> (req.body matches RequestBody::Json(JsonBody::TransferPlayback { device_id: d, play })
                && d@ == device_id@ && !play),
    {
        let body = RequestBody::Json(JsonBody::TransferPlayback { device_id: owned(device_id), play: false });
        request(self, HttpMethod::Put, owned("https://api.spotify.com/v1/me/player"), no_query(), body)
    }

    /// The account's player state.
    pub fn player_state_request(&self) -> (r: Result<ApiRequest, String>)
        ensures
            built(*self, r, HttpMethod::Get, "https://api.spotify.com/v1/me/player"@, Seq::empty()),
            r matches Ok(req) ==> req.body is NoBody,
    {
        request(self, HttpMethod::Get, owned("https://api.spotify.com/v1/me/player"), no_query(), RequestBody::NoBody)
    }
}

/// The fields a playlist page asks for.
pub const PLAYLIST_TRACK_FIELDS: &'static str = "items(item(type,id,name,duration_ms,artists(name),album(images(url))),track(type,id,name,duration_ms,artists(name),album(images(url)))),total";

} // verus!
