use audia::artwork::{
    album_artwork_jobs, apply_album_image_keys, apply_artist_image_keys, apply_playlist_image_keys,
    apply_track_image_keys, artist_artwork_jobs, playlist_entries, total_duration_ms,
    track_artwork_jobs,
};
use audia::backend::{
    choose_playback_device, command_sent_message, login_username, playback_artwork_key,
    playlist_loaded_message, profile_avatar_key, remote_volume, search_complete_message,
    BackendState, LoginAction, LoginEvent, RefreshPlan, RemotePlaybackAction,
};
use audia::backend::{invalid_saved_token_message, poll_local_playback, StartupCheck};
use audia::messages::{Album, Artist, Track};
use audia::playback::LocalPlaybackHandle;
use audia::ui::events::PlaybackEvent;
use audia::oauth::TokenResponse;
use audia::spotify::types::PlaybackDevice;
use audia::spotify::SpotifyPlaylist;
use audia::storage::{configured_client_id, ClientCredentialStore, TokenStore, DEFAULT_SPOTIFY_CLIENT_ID};

fn track(id: &str, url: Option<&str>, duration_ms: u32) -> Track {
    Track {
        id: id.to_string(),
        name: format!("name-{id}"),
        artist: "A".to_string(),
        duration_ms,
        album_image_url: url.map(|u| u.to_string()),
        album_playback_image_url: None,
        album_image_key: None,
    }
}

fn tokens(access: &str, expires_in: u64, refresh: Option<&str>) -> TokenResponse {
    TokenResponse {
        access_token: access.to_string(),
        expires_in,
        refresh_token: refresh.map(|r| r.to_string()),
        _token_type: "Bearer".to_string(),
    }
}

#[test]
fn refresh_is_due_a_minute_before_expiry() {
    let mut s = BackendState::new();
    assert!(!s.token_needs_refresh_at(1_000));
    s.restore_saved_login(
        TokenStore { access_token: "a".into(), refresh_token: Some("r".into()), expires_at: Some(1_000) },
        Some(ClientCredentialStore { client_id: "cid".into() }),
    );
    assert_eq!(s.client_id.as_deref(), Some("cid"));
    assert!(!s.token_needs_refresh_at(939));
    assert!(s.token_needs_refresh_at(940));
    assert!(s.token_needs_refresh_at(5_000));
    s.token_expires_at = Some(30);
    assert!(s.token_needs_refresh_at(0));
    s.token_expires_at = None;
    assert!(!s.token_needs_refresh_at(u64::MAX));
}

#[test]
fn refresh_plan_names_credentials_or_what_is_missing() {
    let mut s = BackendState::new();
    s.refresh_token = Some("r".into());
    s.token_expires_at = Some(100);
    assert!(matches!(s.refresh_plan(0), RefreshPlan::UpToDate));
    match s.refresh_plan(100) {
        RefreshPlan::Missing(m) => {
            assert_eq!(m, "Token refresh required but client ID or refresh token is missing.")
        }
        other => panic!("unexpected {other:?}"),
    }
    s.client_id = Some("cid".into());
    match s.refresh_plan(100) {
        RefreshPlan::Refresh { client_id, refresh_token } => {
            assert_eq!(client_id, "cid");
            assert_eq!(refresh_token, "r");
        }
        other => panic!("unexpected {other:?}"),
    }
}

#[test]
fn applied_tokens_keep_old_refresh_token() {
    let mut s = BackendState::new();
    s.refresh_token = Some("old".into());
    let saved = s.apply_refreshed_tokens(tokens("new-access", 3_600, None), 1_000);
    assert_eq!(s.spotify.access_token.as_deref(), Some("new-access"));
    assert_eq!(s.refresh_token.as_deref(), Some("old"));
    assert_eq!(s.token_expires_at, Some(4_600));
    assert_eq!(saved.access_token, "new-access");
    assert_eq!(saved.refresh_token.as_deref(), Some("old"));
    assert_eq!(saved.expires_at, Some(4_600));
    assert!(!s.token_needs_refresh_at(1_000));
    let saved = s.apply_token_response(tokens("x", 10, Some("fresh")), "cid", 0);
    assert_eq!(s.client_id.as_deref(), Some("cid"));
    assert_eq!(saved.refresh_token.as_deref(), Some("fresh"));
}

#[test]
fn login_guard_and_reset() {
    let mut s = BackendState::new();
    assert_eq!(s.begin_oauth_login(), Ok(()));
    assert_eq!(
        s.begin_oauth_login(),
        Err("OAuth login is already in progress. Complete it in your browser.".to_string())
    );
    s.end_oauth_login();
    assert!(!s.oauth_in_progress);
    s.spotify.set_access_token("t".into());
    s.refresh_token = Some("r".into());
    s.client_id = Some("c".into());
    s.token_expires_at = Some(1);
    s.reset_login();
    assert!(s.spotify.access_token.is_none() && s.refresh_token.is_none());
    assert!(s.client_id.is_none() && s.token_expires_at.is_none());
}

fn device(id: Option<&str>, active: bool) -> PlaybackDevice {
    PlaybackDevice { id: id.map(|i| i.to_string()), name: "d".into(), is_active: active }
}

#[test]
fn device_choice() {
    assert_eq!(choose_playback_device(&vec![device(Some("a"), false), device(None, true)]), Ok(None));
    assert_eq!(
        choose_playback_device(&vec![device(None, false), device(Some("b"), false), device(Some("c"), false)]),
        Ok(Some("b".to_string()))
    );
    assert_eq!(
        choose_playback_device(&vec![device(None, false)]),
        Err("No available Spotify playback device. Open Spotify on a device or use local playback.".to_string())
    );
    assert!(choose_playback_device(&vec![]).is_err());
}

#[test]
fn messages_and_keys() {
    assert_eq!(remote_volume(140), 100);
    assert_eq!(remote_volume(40), 40);
    assert_eq!(command_sent_message(RemotePlaybackAction::SetVolume(3)), "Playback Set volume command sent.");
    assert_eq!(command_sent_message(RemotePlaybackAction::Next), "Playback Next command sent.");
    assert_eq!(
        search_complete_message(10, 2, 0, true),
        "Search complete: 10 tracks, 2 artists, 0 albums. Loading artwork..."
    );
    assert_eq!(search_complete_message(1, 2, 3, false), "Search complete: 1 tracks, 2 artists, 3 albums.");
    assert_eq!(playlist_loaded_message(7), "Loaded 7 tracks from playlist.");
    assert_eq!(login_username(None), "unknown");
    assert_eq!(login_username(Some("Ann".into())), "Ann");
    assert_eq!(profile_avatar_key(1_700_000_000), "spotify-profile-avatar-1700000000");
    assert_eq!(playback_artwork_key("http://i/x.jpg"), "playback-artwork:http://i/x.jpg");
}

#[test]
fn client_id_choice() {
    assert_eq!(configured_client_id(Some("  built "), Some("env"), None), Some("built".to_string()));
    assert_eq!(configured_client_id(Some("   "), Some(" env "), None), Some("env".to_string()));
    assert_eq!(configured_client_id(None, None, Some("saved")), Some(DEFAULT_SPOTIFY_CLIENT_ID.to_string()));
    assert_eq!(
        audia::storage::choose_client_id(None, Some(""), "", Some("saved")),
        Some("saved".to_string())
    );
    assert_eq!(audia::storage::choose_client_id(None, None, "", Some("  ")), None);
}

#[test]
fn track_jobs_by_id_or_url() {
    let tracks = vec![track("a", Some("u1"), 1), track("b", None, 2), track("c", Some("u3"), 3)];
    let jobs = track_artwork_jobs(&tracks, "search-track-artwork:", false);
    let got: Vec<(usize, String, String)> = jobs.into_iter().map(|j| (j.index, j.key, j.url)).collect();
    assert_eq!(
        got,
        vec![
            (0, "search-track-artwork:a".to_string(), "u1".to_string()),
            (2, "search-track-artwork:c".to_string(), "u3".to_string()),
        ]
    );
    let jobs = track_artwork_jobs(&tracks, "playlist-track-artwork:", true);
    assert_eq!(jobs[1].key, "playlist-track-artwork:u3");
}

#[test]
fn loaded_keys_land_on_their_items() {
    let mut tracks = vec![track("a", Some("u1"), 1), track("b", None, 2)];
    apply_track_image_keys(&mut tracks, &vec![(1, "k1".to_string()), (5, "k5".to_string()), (1, "k1b".to_string())]);
    assert_eq!(tracks[0].album_image_key, None);
    assert_eq!(tracks[1].album_image_key.as_deref(), Some("k1b"));
    assert_eq!(tracks.len(), 2);

    let mut artists = vec![Artist { id: "x".into(), name: "X".into(), image_url: Some("ux".into()), image_key: None }];
    let jobs = artist_artwork_jobs(&artists, "search-artist-artwork:");
    assert_eq!(jobs[0].key, "search-artist-artwork:x");
    apply_artist_image_keys(&mut artists, &vec![(0, jobs[0].key.clone())]);
    assert_eq!(artists[0].image_key.as_deref(), Some("search-artist-artwork:x"));

    let mut albums = vec![Album {
        id: "al".into(),
        name: "N".into(),
        artist: "A".into(),
        release_date: None,
        image_url: Some("ua".into()),
        image_key: None,
    }];
    let jobs = album_artwork_jobs(&albums, "search-album-artwork:");
    assert_eq!(jobs[0].key, "search-album-artwork:al");
    apply_album_image_keys(&mut albums, &vec![(0, "k".into())]);
    assert_eq!(albums[0].image_key.as_deref(), Some("k"));
}

#[test]
fn playlist_rows_and_their_artwork() {
    let playlists = vec![
        SpotifyPlaylist { id: "p1".into(), name: "One".into(), image_url: Some("img1".into()), track_count: 3 },
        SpotifyPlaylist { id: "p2".into(), name: "Two".into(), image_url: None, track_count: 0 },
    ];
    let (mut rows, jobs) = playlist_entries(&playlists);
    assert_eq!(rows.len(), 2);
    assert_eq!(rows[0].id, "p1");
    assert_eq!(rows[0].track_count, 3);
    assert_eq!(rows[1].total_duration_ms, 0);
    assert_eq!(jobs.len(), 1);
    assert_eq!((jobs[0].index, jobs[0].key.as_str()), (0, "playlist-artwork:img1"));
    apply_playlist_image_keys(&mut rows, &vec![(0, "playlist-artwork:img1".into())]);
    assert_eq!(rows[0].image_key.as_deref(), Some("playlist-artwork:img1"));
}

#[test]
fn durations_add_up() {
    assert_eq!(total_duration_ms(&vec![]), 0);
    assert_eq!(
        total_duration_ms(&vec![track("a", None, 4_000_000_000), track("b", None, 4_000_000_000)]),
        8_000_000_000
    );
}

#[test]
fn startup_and_polling() {
    let mut s = BackendState::new();
    assert!(matches!(s.startup_check(0), StartupCheck::ValidateToken));
    s.refresh_token = Some("r".into());
    s.token_expires_at = Some(10);
    assert!(matches!(s.startup_check(0), StartupCheck::Nothing));
    s.client_id = Some("c".into());
    assert!(matches!(s.startup_check(0), StartupCheck::RefreshSilently { .. }));
    assert!(!BackendState::new().token_needs_refresh());
    assert_eq!(invalid_saved_token_message(), "Saved token is invalid. Please log in again.");

    let mut h = LocalPlaybackHandle::new();
    h.position_ms = 5;
    h.duration_ms = 9;
    h.track_finished = true;
    let events = poll_local_playback(&mut h);
    assert_eq!(events.len(), 2);
    assert!(matches!(events[0], PlaybackEvent::LocalTrackEnded));
    assert!(matches!(events[1], PlaybackEvent::Progress { position_ms: 5, duration_ms: 9, is_playing: false }));
    assert!(!h.track_finished);
    assert_eq!(poll_local_playback(&mut h).len(), 1);
}

#[test]
fn every_fetched_job_key_lands_on_its_item() {
    let mut tracks = vec![track("a", Some("u1"), 1), track("b", None, 2), track("c", Some("u3"), 3)];
    let jobs = track_artwork_jobs(&tracks, "search-track-artwork:", false);
    let loaded: Vec<(usize, String)> = jobs.into_iter().map(|j| (j.index, j.key)).collect();
    apply_track_image_keys(&mut tracks, &loaded);
    let keys: Vec<Option<&str>> = tracks.iter().map(|t| t.album_image_key.as_deref()).collect();
    assert_eq!(keys, vec![Some("search-track-artwork:a"), None, Some("search-track-artwork:c")]);
}

#[test]
fn saved_tokens_restore_the_session() {
    let mut s = BackendState::new();
    let saved = s.apply_token_response(tokens("acc", 3_600, Some("ref")), "cid", 100);
    let mut other = BackendState::new();
    other.restore_saved_login(saved, None);
    assert_eq!(other.spotify.access_token, s.spotify.access_token);
    assert_eq!(other.refresh_token, s.refresh_token);
    assert_eq!(other.token_expires_at, s.token_expires_at);
    assert_eq!(other.token_needs_refresh_at(3_640), s.token_needs_refresh_at(3_640));
    assert!(other.token_needs_refresh_at(3_640));
}

#[test]
fn login_flow_runs_to_tokens_and_clears_the_mark() {
    let mut s = BackendState::new();
    assert!(matches!(s.login_event(LoginEvent::Start("cid".into())), LoginAction::SaveCredentials(c) if c == "cid"));
    assert!(s.oauth_in_progress);
    assert!(matches!(
        s.login_event(LoginEvent::Start("other".into())),
        LoginAction::Status(m) if m == "OAuth login is already in progress. Complete it in your browser."
    ));
    assert!(matches!(s.login_event(LoginEvent::CredentialsSaved("cid".into(), Ok(()))), LoginAction::OpenBrowser));
    assert_eq!(s.client_id.as_deref(), Some("cid"));
    assert!(matches!(s.login_event(LoginEvent::BrowserOpened(Ok(()))), LoginAction::WaitForCallback));
    assert!(matches!(s.login_event(LoginEvent::CallbackReceived(Ok("code".into()))), LoginAction::ExchangeCode(c) if c == "code"));
    assert!(s.oauth_in_progress);
    match s.login_event(LoginEvent::TokensReceived("cid".into(), Ok(tokens("acc", 3600, Some("ref"))), 1000)) {
        LoginAction::Done(saved) => {
            assert_eq!(saved.access_token, "acc");
            assert_eq!(saved.refresh_token.as_deref(), Some("ref"));
            assert_eq!(saved.expires_at, Some(4600));
        }
        other => panic!("unexpected {other:?}"),
    }
    assert!(!s.oauth_in_progress);
    assert_eq!(s.spotify.access_token.as_deref(), Some("acc"));
}

#[test]
fn every_login_failure_clears_the_mark() {
    let failures = vec![
        (LoginEvent::CredentialsSaved("c".into(), Err("disk".into())), "Failed to save client credentials: disk"),
        (LoginEvent::BrowserOpened(Err("none".into())), "Failed to open browser: none"),
        (LoginEvent::CallbackReceived(Err("timeout".into())), "OAuth callback error: timeout"),
        (LoginEvent::TokensReceived("c".into(), Err("401".into()), 5), "Token exchange failed: 401"),
    ];
    for (event, message) in failures {
        let mut s = BackendState::new();
        s.login_event(LoginEvent::Start("c".into()));
        assert!(matches!(s.login_event(event), LoginAction::Fail(m) if m == message));
        assert!(!s.oauth_in_progress);
        assert!(matches!(s.login_event(LoginEvent::Start("c".into())), LoginAction::SaveCredentials(_)));
    }
}
