use audia::messages::Album;
use audia::spotify::albums::{album_from_lookup, map_album_tracks, release_year};
use audia::spotify::artists::{map_artist_albums, primary_artist, sort_and_dedup_albums, artist_from_lookup};
use audia::spotify::fields::{api_url, clamp_limit, command_succeeded};
use audia::spotify::paging::{AlbumListing, TrackListing, MAX_PLAYLIST_TRACKS};
use audia::spotify::images::{pick_image_url, pick_largest_image_url};
use audia::spotify::playback::{is_image_content_type, profile_image_url, remote_progress};
use audia::spotify::playlists::{
    check_playlist_writable, check_snapshot, map_playlist_tracks, playlist_from_created,
    validate_add_uris, validate_remove_uris, writable_playlists,
};
use audia::spotify::request::{HttpMethod, JsonBody, RequestBody};
use audia::spotify::search::{map_search_tracks, search_results};
use audia::spotify::types::{
    AlbumSearchItem, AlbumSummary, AlbumTrackObject, ArtistAlbumItem, ArtistSearchItem,
    CurrentPlaybackResponse, PlaybackItem, PlaylistItem, PlaylistOwner, PlaylistTrackCount,
    PlaylistTrackObject, PlaylistTrackWrapper, SearchArtist, SearchTrackItem, SpotifyImage,
    TrackArtist, TrackLookupAlbum,
};
use audia::spotify::SpotifyService;

fn img(url: &str, w: Option<u32>, h: Option<u32>) -> SpotifyImage {
    SpotifyImage { url: url.to_string(), width: w, height: h }
}

fn artist(name: &str) -> SearchArtist {
    SearchArtist { name: name.to_string() }
}

fn album(id: &str, name: &str, date: Option<&str>) -> Album {
    Album {
        id: id.into(),
        name: name.into(),
        artist: "A".into(),
        release_date: date.map(|d| d.to_string()),
        image_url: None,
        image_key: None,
    }
}

#[test]
fn image_picks() {
    let images = vec![img("big", Some(640), None), img("mid", None, Some(300)), img("small", Some(64), Some(64))];
    assert_eq!(pick_image_url(&images, 64).as_deref(), Some("small"));
    assert_eq!(pick_image_url(&images, 160).as_deref(), Some("mid"));
    assert_eq!(pick_image_url(&images, 1000).as_deref(), Some("big"));
    assert_eq!(pick_largest_image_url(&images).as_deref(), Some("big"));
    let no_sizes = vec![img("first", None, None), img("second", None, None)];
    assert_eq!(pick_image_url(&no_sizes, 64).as_deref(), Some("first"));
    assert_eq!(pick_largest_image_url(&no_sizes).as_deref(), Some("second"));
    assert_eq!(pick_image_url(&vec![], 64), None);
    assert_eq!(profile_image_url(&images).as_deref(), Some("mid"));
}

#[test]
fn search_tracks_map_artist_and_images() {
    let items = vec![
        SearchTrackItem {
            id: "t1".into(),
            name: "One".into(),
            artists: vec![artist("First"), artist("Second")],
            duration_ms: 1000,
            album: AlbumSummary { images: vec![img("l", Some(300), None), img("s", Some(64), None)] },
        },
        SearchTrackItem {
            id: "t2".into(),
            name: "Two".into(),
            artists: vec![],
            duration_ms: 2000,
            album: AlbumSummary { images: vec![] },
        },
    ];
    let tracks = map_search_tracks(&items);
    assert_eq!(tracks[0].artist, "First");
    assert_eq!(tracks[0].album_image_url.as_deref(), Some("s"));
    assert_eq!(tracks[0].album_playback_image_url.as_deref(), Some("l"));
    assert_eq!(tracks[1].artist, "Unknown artist");
    assert_eq!(tracks[1].album_image_url, None);
}

#[test]
fn search_fails_with_the_first_failed_page() {
    let r = search_results(Ok(vec![]), Err("artists down".into()), Err("albums down".into()));
    assert_eq!(r.unwrap_err(), "artists down");
    let r = search_results(Err("tracks down".into()), Ok(vec![]), Err("albums down".into()));
    assert_eq!(r.unwrap_err(), "tracks down");
    let r = search_results(
        Ok(vec![]),
        Ok(vec![ArtistSearchItem { id: "a".into(), name: "A".into(), images: vec![] }]),
        Ok(vec![AlbumSearchItem {
            id: "b".into(),
            name: "B".into(),
            artists: vec![artist("X")],
            release_date: Some("2020".into()),
            images: vec![img("c", Some(160), None)],
        }]),
    )
    .unwrap();
    assert_eq!(r.tracks.len(), 0);
    assert_eq!(r.artists[0].id, "a");
    assert_eq!(r.albums[0].artist, "X");
    assert_eq!(r.albums[0].image_url.as_deref(), Some("c"));
}

fn playlist_item(id: Option<&str>, owner: Option<&str>, collaborative: Option<bool>) -> PlaylistItem {
    PlaylistItem {
        id: id.map(|s| s.to_string()),
        name: Some("P".into()),
        owner: owner.map(|o| PlaylistOwner { id: o.to_string() }),
        collaborative,
        public: Some(true),
        images: vec![img("pi", None, None)],
        tracks: Some(PlaylistTrackCount { total: Some(12) }),
    }
}

#[test]
fn only_writable_playlists_are_offered() {
    let items = vec![
        Some(playlist_item(Some("mine"), Some("me"), None)),
        Some(playlist_item(Some("followed"), Some("other"), Some(false))),
        None,
        Some(playlist_item(Some("collab"), Some("other"), Some(true))),
        Some(playlist_item(None, Some("me"), None)),
    ];
    let out = writable_playlists(&items, "me");
    let ids: Vec<&str> = out.iter().map(|p| p.id.as_str()).collect();
    assert_eq!(ids, vec!["mine", "collab"]);
    assert_eq!(out[0].image_url.as_deref(), Some("pi"));
    assert_eq!(out[0].track_count, 12);
}

#[test]
fn created_playlist_needs_an_id() {
    let mut item = playlist_item(Some("new"), Some("me"), None);
    item.name = None;
    item.tracks = None;
    let p = playlist_from_created(&item).unwrap();
    assert_eq!((p.id.as_str(), p.name.as_str(), p.track_count), ("new", "", 0));
    assert_eq!(
        playlist_from_created(&playlist_item(None, None, None)).err().unwrap(),
        "Spotify create playlist returned no playlist ID"
    );
}

#[test]
fn edit_checks() {
    assert_eq!(check_playlist_writable(&Some("me".into()), None, "me"), Ok(()));
    assert_eq!(check_playlist_writable(&Some("x".into()), Some(true), "me"), Ok(()));
    assert_eq!(
        check_playlist_writable(&None, Some(false), "me"),
        Err("Playlist is not writable by this account (not owner and not collaborative).".to_string())
    );
    assert_eq!(
        validate_add_uris(&vec![]),
        Err("Spotify add tracks requires at least one track URI".to_string())
    );
    let many: Vec<String> = (0..101).map(|i| format!("spotify:track:{i}")).collect();
    assert_eq!(
        validate_add_uris(&many),
        Err("Spotify add tracks supports up to 100 track URIs per request".to_string())
    );
    assert_eq!(validate_add_uris(&many[..100].to_vec()), Ok(()));
    assert_eq!(
        validate_remove_uris(&vec![]),
        Err("Spotify remove tracks requires at least one track URI".to_string())
    );
    assert_eq!(check_snapshot("", true), Err("Spotify add tracks returned an empty snapshot_id".to_string()));
    assert_eq!(check_snapshot("", false), Err("Spotify remove tracks returned an empty snapshot_id".to_string()));
    assert_eq!(check_snapshot("abc", true), Ok(()));
}

fn object(kind: Option<&str>, id: Option<&str>) -> PlaylistTrackObject {
    PlaylistTrackObject {
        item_type: kind.map(|k| k.to_string()),
        id: id.map(|i| i.to_string()),
        name: "N".into(),
        artists: vec![artist("A"), artist("B")],
        duration_ms: 10,
        album: AlbumSummary { images: vec![img("first", Some(10), None), img("second", Some(640), None)] },
    }
}

#[test]
fn playlist_entries_keep_tracks_only() {
    let entries = vec![
        PlaylistTrackWrapper { item: Some(object(Some("track"), Some("t1"))), track: None },
        PlaylistTrackWrapper { item: None, track: Some(object(Some("track"), Some("t2"))) },
        PlaylistTrackWrapper { item: Some(object(Some("episode"), Some("e1"))), track: None },
        PlaylistTrackWrapper { item: Some(object(Some("track"), None)), track: Some(object(Some("track"), Some("t3"))) },
        PlaylistTrackWrapper { item: None, track: None },
    ];
    let tracks = map_playlist_tracks(&entries);
    let ids: Vec<&str> = tracks.iter().map(|t| t.id.as_str()).collect();
    assert_eq!(ids, vec!["t1", "t2"]);
    assert_eq!(tracks[0].artist, "A, B");
    assert_eq!(tracks[0].album_image_url.as_deref(), Some("first"));
}

#[test]
fn album_tracks_and_lookup() {
    let items = vec![
        AlbumTrackObject { id: Some("a1".into()), name: "x".into(), artists: vec![artist("P")], duration_ms: 5, item_type: Some("track".into()) },
        AlbumTrackObject { id: None, name: "y".into(), artists: vec![], duration_ms: 5, item_type: Some("track".into()) },
        AlbumTrackObject { id: Some("a3".into()), name: "z".into(), artists: vec![], duration_ms: 5, item_type: None },
    ];
    let tracks = map_album_tracks(&items);
    assert_eq!(tracks.len(), 1);
    assert_eq!(tracks[0].artist, "P");
    let lookup = TrackLookupAlbum {
        id: "al".into(),
        name: "Al".into(),
        artists: vec![],
        release_date: Some("1999-01-02".into()),
        images: vec![img("x", Some(640), None), img("y", Some(300), None), img("z", Some(64), None)],
    };
    let a = album_from_lookup(&lookup);
    assert_eq!(a.artist, "Unknown artist");
    assert_eq!(a.image_url.as_deref(), Some("y"));
    assert_eq!(release_year(&a.release_date), Some(1999));
    assert_eq!(release_year(&Some("2004".into())), Some(2004));
    assert_eq!(release_year(&Some("n/a".into())), None);
    assert_eq!(release_year(&None), None);
}

#[test]
fn artist_lookups() {
    let a = artist_from_lookup("id".into(), "Name".into(), &vec![img("u", None, None)]);
    assert_eq!(a.image_url.as_deref(), Some("u"));
    let p = primary_artist(vec![
        TrackArtist { id: "1".into(), name: "One".into() },
        TrackArtist { id: "2".into(), name: "Two".into() },
    ])
    .unwrap();
    assert_eq!((p.id.as_str(), p.name.as_str()), ("1", "One"));
    assert_eq!(
        primary_artist(vec![]).unwrap_err(),
        "Track has no associated artist in Spotify response."
    );
}

#[test]
fn artist_albums_skip_appearances() {
    let item = |id: &str, group: Option<&str>| ArtistAlbumItem {
        id: id.into(),
        name: id.into(),
        artists: vec![artist("Main")],
        release_date: Some("2001".into()),
        images: vec![img("cover", None, None)],
        album_group: group.map(|g| g.to_string()),
    };
    let albums = map_artist_albums(&vec![item("a", Some("album")), item("b", Some("appears_on")), item("c", None)]);
    let ids: Vec<&str> = albums.iter().map(|a| a.id.as_str()).collect();
    assert_eq!(ids, vec!["a", "c"]);
    assert_eq!(albums[0].image_url.as_deref(), Some("cover"));
}

#[test]
fn albums_sorted_newest_first_then_by_name_without_repeats() {
    let mut albums = vec![
        album("1", "Beta", Some("2010-01-01")),
        album("2", "Alpha", None),
        album("3", "Alpha", Some("2010-01-01")),
        album("3", "Alpha", Some("2010-01-01")),
        album("4", "Gamma", Some("2021")),
        album("5", "Zed", None),
    ];
    sort_and_dedup_albums(&mut albums);
    let ids: Vec<&str> = albums.iter().map(|a| a.id.as_str()).collect();
    assert_eq!(ids, vec!["4", "3", "1", "2", "5"]);
}

#[test]
fn equal_keys_keep_their_order() {
    let mut albums = vec![album("x", "Same", Some("2000")), album("y", "Same", Some("2000")), album("x", "Same", Some("2000"))];
    sort_and_dedup_albums(&mut albums);
    let ids: Vec<&str> = albums.iter().map(|a| a.id.as_str()).collect();
    assert_eq!(ids, vec!["x", "y", "x"]);
}

#[test]
fn progress_and_content_types() {
    let p = CurrentPlaybackResponse { is_playing: true, progress_ms: None, item: Some(PlaybackItem { duration_ms: 9 }) };
    assert_eq!(remote_progress(&p), Some((0, 9, true)));
    let p = CurrentPlaybackResponse { is_playing: false, progress_ms: Some(3), item: None };
    assert_eq!(remote_progress(&p), None);
    assert!(is_image_content_type(&Some("image/jpeg".into())));
    assert!(!is_image_content_type(&Some("text/html".into())));
    assert!(!is_image_content_type(&None));
}

#[test]
fn field_helpers() {
    assert_eq!(api_url("https://api.spotify.com/v1/playlists/", "a b/c", "/items"), "https://api.spotify.com/v1/playlists/a%20b%2Fc/items");
    assert_eq!(clamp_limit(0, 1, 50), 1);
    assert_eq!(clamp_limit(80, 1, 50), 50);
    assert!(command_succeeded(204) && command_succeeded(200) && !command_succeeded(404));
}

#[test]
fn requests_carry_token_query_and_body() {
    let none = SpotifyService::new();
    assert_eq!(none.me_request().unwrap_err(), "No token provided");
    let mut s = SpotifyService::new();
    s.set_access_token("tok".into());
    let r = s.search_request("love song", "track", Some(0)).unwrap();
    assert_eq!(r.method, HttpMethod::Get);
    assert_eq!(r.url, "https://api.spotify.com/v1/search");
    assert_eq!(r.token, "tok");
    let q: Vec<(&str, &str)> = r.query.iter().map(|(a, b)| (a.as_str(), b.as_str())).collect();
    assert_eq!(q, vec![("q", "love song"), ("type", "track"), ("limit", "10"), ("offset", "0")]);
    let r = s.user_playlists_request(500).unwrap();
    assert_eq!(r.query[0].1, "50");
    let r = s.playlist_tracks_page_request("p/1", 0, 100).unwrap();
    assert_eq!(r.url, "https://api.spotify.com/v1/playlists/p%2F1/items");
    assert_eq!(r.query[0].1, "1");
    assert_eq!(r.query[1].1, "100");
    let r = s.artist_albums_page_request("ar", 99, 20).unwrap();
    assert_eq!(r.query[1].1, "10");
    let r = s.set_volume_request(150).unwrap();
    assert_eq!(r.query[0], ("volume_percent".to_string(), "100".to_string()));
    assert!(matches!(r.body, RequestBody::Empty));
    let r = s.play_track_request("abc").unwrap();
    match r.body {
        RequestBody::Json(JsonBody::Uris(u)) => assert_eq!(u, vec!["spotify:track:abc".to_string()]),
        other => panic!("unexpected {other:?}"),
    }
    let r = s.player_command_request("next", HttpMethod::Post).unwrap();
    assert_eq!(r.url, "https://api.spotify.com/v1/me/player/next");
    let r = s.transfer_playback_request("dev").unwrap();
    match r.body {
        RequestBody::Json(JsonBody::TransferPlayback { device_id, play }) => {
            assert_eq!(device_id, "dev");
            assert!(!play);
        }
        other => panic!("unexpected {other:?}"),
    }
    let r = s.create_playlist_request("Mix").unwrap();
    assert!(matches!(r.body, RequestBody::Json(JsonBody::CreatePlaylist { public: false, collaborative: false, .. })));
}

#[test]
fn playlist_listing_stops_at_the_limit() {
    let page = vec![
        PlaylistTrackWrapper { item: Some(object(Some("track"), Some("t1"))), track: None },
        PlaylistTrackWrapper { item: Some(object(Some("track"), Some("t2"))), track: None },
        PlaylistTrackWrapper { item: Some(object(Some("track"), Some("t3"))), track: None },
    ];
    let mut l = TrackListing::new();
    assert_eq!(l.take_playlist_page(&page, 10, 2), None);
    let ids: Vec<&str> = l.tracks.iter().map(|t| t.id.as_str()).collect();
    assert_eq!(ids, vec!["t1", "t2"]);
    assert_eq!(l.offset, 3);

    let mut z = TrackListing::new();
    assert_eq!(z.take_playlist_page(&page, 10, 0), None);
    assert!(z.tracks.is_empty());

    let many: Vec<PlaylistTrackWrapper> = (0..60)
        .map(|i| PlaylistTrackWrapper { item: Some(object(Some("track"), Some(&format!("t{i}")))), track: None })
        .collect();
    let mut m = TrackListing::new();
    assert_eq!(m.take_playlist_page(&many, 100, 100), None);
    assert_eq!(m.tracks.len(), MAX_PLAYLIST_TRACKS);
    assert_eq!(m.tracks[49].id, "t49");
}

#[test]
fn listings_gather_pages_until_complete() {
    let mut l = TrackListing::new();
    let page = vec![
        PlaylistTrackWrapper { item: Some(object(Some("track"), Some("t1"))), track: None },
        PlaylistTrackWrapper { item: Some(object(Some("episode"), Some("e"))), track: None },
    ];
    assert_eq!(l.take_playlist_page(&page, 3, 50), Some(2));
    assert_eq!(l.take_playlist_page(&vec![PlaylistTrackWrapper { item: None, track: Some(object(Some("track"), Some("t2"))) }], 3, 50), None);
    let ids: Vec<&str> = l.tracks.iter().map(|t| t.id.as_str()).collect();
    assert_eq!(ids, vec!["t1", "t2"]);
    assert_eq!(l.offset, 3);

    let mut a = TrackListing::new();
    let items = vec![AlbumTrackObject { id: Some("x".into()), name: "x".into(), artists: vec![], duration_ms: 1, item_type: Some("track".into()) }];
    assert_eq!(a.take_album_page(&items, 10), Some(1));

    let item = |id: &str, date: &str, group: Option<&str>| ArtistAlbumItem {
        id: id.into(),
        name: id.into(),
        artists: vec![],
        release_date: Some(date.into()),
        images: vec![],
        album_group: group.map(|g| g.to_string()),
    };
    let mut albums = AlbumListing::new();
    assert_eq!(albums.take_page(&vec![item("old", "1990", None), item("guest", "2000", Some("appears_on"))], 5), Some(1));
    assert_eq!(albums.take_page(&vec![item("guest2", "2001", Some("appears_on"))], 5), None);
    let out = albums.finish();
    let ids: Vec<&str> = out.iter().map(|a| a.id.as_str()).collect();
    assert_eq!(ids, vec!["old"]);
    let mut more = AlbumListing::new();
    more.take_page(&vec![item("a", "1990", None), item("b", "2020", None), item("a", "1990", None)], 3);
    let ids: Vec<String> = more.finish().into_iter().map(|a| a.id).collect();
    assert_eq!(ids, vec!["b".to_string(), "a".to_string()]);
}
