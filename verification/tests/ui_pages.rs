use audia::messages::{Album, Artist, PlaylistEntry, SearchResultsData, Track};
use audia::ui::album_state::{AlbumAction, AlbumState};
use audia::ui::artist_state::{ArtistAction, ArtistState};
use audia::ui::center_state::CenterState;
use audia::ui::events::{
    AlbumEvent, AlbumTracksData, ArtistEvent, CenterPanelEvent, OAuthEvents, PlaylistsEvent,
    RightPanelEvent, SearchEvent,
};
use audia::ui::model_data::{CenterPage, RightPanelPage};
use audia::ui::oauth_state::{OAuthAction, OAuthState};
use audia::ui::playlists_state::{PlaylistsAction, PlaylistsState};
use audia::ui::preferences_data::{PageIcon, PreferencesData, PreferencesEvent, PreferencesPage, Preference};
use audia::ui::right_panel_state::RightPanelState;
use audia::ui::search_state::{SearchAction, SearchState};
use audia::ui::track_filter::{filter_track_list, rank_matches};

fn t(id: &str, name: &str, artist: &str) -> Track {
    Track {
        id: id.into(),
        name: name.into(),
        artist: artist.into(),
        duration_ms: 1000,
        album_image_url: None,
        album_playback_image_url: None,
        album_image_key: None,
    }
}

fn album(id: &str, name: &str) -> Album {
    Album { id: id.into(), name: name.into(), artist: "x".into(), release_date: None, image_url: None, image_key: None }
}

#[test]
fn center_history_back_and_forward() {
    let mut c = CenterState::new();
    c.event(&CenterPanelEvent::NavigateTo(CenterPage::AlbumTracks));
    c.event(&CenterPanelEvent::NavigateTo(CenterPage::Artist));
    assert_eq!(c.current_page, CenterPage::Artist);
    assert!(c.can_go_back && !c.can_go_forward);
    c.event(&CenterPanelEvent::NavigateBack);
    assert_eq!(c.current_page, CenterPage::AlbumTracks);
    assert!(c.can_go_forward);
    c.event(&CenterPanelEvent::NavigateForward);
    assert_eq!(c.current_page, CenterPage::Artist);
    c.event(&CenterPanelEvent::NavigateBack);
    c.event(&CenterPanelEvent::NavigateTo(CenterPage::PlaylistTracks));
    assert!(!c.can_go_forward);
    assert_eq!(c.page_history, vec![CenterPage::Search, CenterPage::AlbumTracks, CenterPage::PlaylistTracks]);
    c.event(&CenterPanelEvent::NavigateTo(CenterPage::PlaylistTracks));
    assert_eq!(c.page_history.len(), 3);
    c.event(&CenterPanelEvent::NavigateBack);
    c.event(&CenterPanelEvent::NavigateBack);
    c.event(&CenterPanelEvent::NavigateBack);
    assert_eq!(c.current_page, CenterPage::Search);
    assert!(!c.can_go_back);
}

#[test]
fn right_panel_switches_page() {
    let mut r = RightPanelState::new();
    r.event(&RightPanelEvent::NavigateTo(RightPanelPage::RecentlyPlayed));
    assert_eq!(r.current_page, RightPanelPage::RecentlyPlayed);
}

#[test]
fn album_page_plays_and_shuffles() {
    let mut a = AlbumState::new();
    assert!(a.event(&AlbumEvent::PlayAlbum).is_empty());
    a.event(&AlbumEvent::AlbumTracks(AlbumTracksData {
        id: "al".into(),
        name: "Record".into(),
        artist: "Band".into(),
        image_url: None,
        image_key: Some("k".into()),
        tracks: vec![t("1", "a", "b"), t("2", "c", "d")],
        release_year: Some(2001),
        track_count: 2,
        total_duration_ms: 2000,
    }));
    assert_eq!(a.album_name, "Record");
    assert_eq!(a.album_release_year, Some(2001));
    let actions = a.event(&AlbumEvent::AlbumTrackSelected(1));
    assert!(matches!(&actions[0], AlbumAction::AddToQueue(v) if v.len() == 1 && v[0].id == "2"));
    assert!(a.event(&AlbumEvent::AlbumTrackSelected(9)).is_empty());
    a.event(&AlbumEvent::ToggleShuffleAlbum);
    let actions = a.event(&AlbumEvent::PlayAlbum);
    assert_eq!(actions.len(), 2);
    assert!(matches!(&actions[0], AlbumAction::AddToQueue(v) if v.len() == 2));
    assert!(matches!(actions[1], AlbumAction::ShuffleQueue));
}

#[test]
fn artist_page_opens_albums() {
    let mut s = ArtistState::new();
    s.event(&ArtistEvent::ArtistView {
        id: "ar".into(),
        name: "Band".into(),
        image_key: None,
        albums: vec![album("a1", "First")],
    });
    let actions = s.event(&ArtistEvent::ArtistAlbumSelected(0));
    assert_eq!(s.status, "Loading tracks for 'First'...");
    assert!(matches!(actions[0], ArtistAction::NavigateTo(CenterPage::AlbumTracks)));
    assert!(matches!(&actions[1], ArtistAction::FetchAlbumTracks(a) if a.id == "a1"));
    assert!(s.event(&ArtistEvent::ArtistAlbumSelected(3)).is_empty());
    assert_eq!(s.status, "Selected artist album is unavailable.");
}

#[test]
fn login_uses_typed_or_configured_client_id() {
    let mut o = OAuthState::new();
    o.event(&OAuthEvents::SetLoginClientId("  typed  ".into()), Some("conf".into()));
    let actions = o.event(&OAuthEvents::StartOAuthLogin, Some("conf".into()));
    assert!(matches!(&actions[0], OAuthAction::StartOAuthLogin(c) if c == "typed"));
    o.event(&OAuthEvents::SetLoginClientId("   ".into()), None);
    let actions = o.event(&OAuthEvents::StartOAuthLogin, Some("conf".into()));
    assert!(matches!(&actions[0], OAuthAction::StartOAuthLogin(c) if c == "conf"));
    assert!(o.event(&OAuthEvents::StartOAuthLogin, None).is_empty());
    assert_eq!(
        o.status,
        "No Spotify client ID is configured. Set AUDIA_SPOTIFY_CLIENT_ID or ship a saved app config."
    );
    let actions = o.event(
        &OAuthEvents::LoginComplete { username: "ann".into(), profile_image_key: Some("p".into()) },
        None,
    );
    assert!(o.auth_valid && !o.show_login_modal);
    assert_eq!(o.status, "Logged in as ann.");
    assert!(matches!(actions[0], OAuthAction::RefreshUserPlaylists));
    o.event(&OAuthEvents::LoggedOut, None);
    assert!(!o.auth_valid && o.show_login_modal);
    assert_eq!(o.auth_username, "");
}

#[test]
fn search_submit_and_results() {
    let mut s = SearchState::new();
    assert!(s.event(&SearchEvent::SubmitQuery("   ".into())).is_empty());
    assert_eq!(s.status, "Enter a search query first.");
    let actions = s.event(&SearchEvent::SubmitQuery("  blue ".into()));
    assert_eq!(s.status, "Searching for 'blue'...");
    assert!(matches!(actions.last(), Some(SearchAction::SearchTracks(q)) if q == "blue"));
    s.event(&SearchEvent::Results(SearchResultsData {
        tracks: vec![t("1", "Blue", "A"), t("2", "Bluer", "B")],
        artists: vec![Artist { id: "ar".into(), name: "Blues".into(), image_url: None, image_key: None }],
        albums: vec![album("al", "Blue Album")],
    }));
    assert_eq!(s.selected_summary, "Selected #1: Blue - A");
    let actions = s.event(&SearchEvent::SelectTrack(1));
    assert!(matches!(&actions[0], SearchAction::AddToQueue(v) if v[0].id == "2"));
    let actions = s.event(&SearchEvent::SelectArtist(0));
    assert_eq!(s.status, "Loading albums for 'Blues'...");
    assert!(matches!(&actions[2], SearchAction::FetchArtistView(id) if id == "ar"));
    let actions = s.event(&SearchEvent::SelectAlbum(0));
    assert!(matches!(&actions[2], SearchAction::FetchAlbumTracks(a) if a.id == "al"));
    s.event(&SearchEvent::SelectAlbum(5));
    assert_eq!(s.status, "Selected album is unavailable.");
    assert_eq!(SearchState::search_tabs(), vec!["Songs".to_string(), "Artists".to_string(), "Albums".to_string()]);
}

fn entry(id: &str, name: &str) -> PlaylistEntry {
    PlaylistEntry { id: id.into(), name: name.into(), image_key: Some(format!("img-{id}")), track_count: 0, total_duration_ms: 0 }
}

#[test]
fn playlist_selection_loads_and_ignores_stale_answers() {
    let mut p = PlaylistsState::new();
    p.event(&PlaylistsEvent::Playlists(vec![entry("p1", "One"), entry("p2", "Two")]));
    let actions = p.event(&PlaylistsEvent::SelectPlaylist(1));
    assert_eq!(p.status, "Loading playlist 'Two'...");
    let rid = p.current_playlist_request_id;
    assert!(actions.iter().any(|a| matches!(a, PlaylistsAction::FetchPlaylistTracks { id, request_id, .. } if id == "p2" && *request_id == rid)));
    let stale = p.event(&PlaylistsEvent::PlaylistTracks {
        request_id: rid.wrapping_sub(1),
        id: "p1".into(),
        name: "One".into(),
        tracks: vec![t("x", "x", "x")],
        track_count: 1,
        total_duration_ms: 1,
    });
    assert!(stale.is_empty());
    assert!(p.playlist_tracks.is_empty());
    let actions = p.event(&PlaylistsEvent::PlaylistTracks {
        request_id: rid,
        id: "p2".into(),
        name: "Two".into(),
        tracks: vec![t("a", "Alpha", "X"), t("b", "Beta", "Y")],
        track_count: 2,
        total_duration_ms: 2000,
    });
    assert!(matches!(actions[0], PlaylistsAction::NavigateTo(CenterPage::PlaylistTracks)));
    assert_eq!(p.playlist_tracks.len(), 2);
    assert_eq!(p.filtered_playlist_tracks.len(), 2);
    assert_eq!(p.playlist_rows[1].track_count, 2);
    assert_eq!(p.playlist_rows[1].total_duration_ms, 2000);
    assert_eq!(p.active_playlist_image_key.as_deref(), Some("img-p2"));
    p.event(&PlaylistsEvent::SetTrackFilter("bet".into()));
    assert_eq!(p.filtered_playlist_tracks.len(), 1);
    assert_eq!(p.filtered_playlist_tracks[0].id, "b");
    assert_eq!(p.filtered_track_indices, vec![1]);
}

#[test]
fn playlist_dialogs() {
    let mut p = PlaylistsState::new();
    p.event(&PlaylistsEvent::OpenCreatePlaylistModal);
    assert!(p.event(&PlaylistsEvent::SubmitCreatePlaylist).is_empty());
    assert_eq!(p.status, "Please enter a playlist name before creating it.");
    p.event(&PlaylistsEvent::SetCreatePlaylistName("  Road trip ".into()));
    let actions = p.event(&PlaylistsEvent::SubmitCreatePlaylist);
    assert!(matches!(&actions[0], PlaylistsAction::CreatePlaylist(n) if n == "Road trip"));
    assert!(p.event(&PlaylistsEvent::SubmitCreatePlaylist).is_empty());
    p.event(&PlaylistsEvent::PlaylistCreated { id: "new".into(), name: "Road trip".into() });
    assert_eq!(p.status, "Created playlist 'Road trip'.");
    assert!(!p.show_create_playlist_modal);
    p.event(&PlaylistsEvent::OpenRenamePlaylistModal { id: "new".into(), name: "Road trip".into() });
    p.event(&PlaylistsEvent::SetRenamePlaylistName("Trip".into()));
    let actions = p.event(&PlaylistsEvent::SubmitRenamePlaylist);
    assert!(matches!(&actions[0], PlaylistsAction::RenamePlaylist { id, name } if id == "new" && name == "Trip"));
    p.event(&PlaylistsEvent::PlaylistRenamed { id: "new".into(), name: "Trip".into() });
    assert_eq!(p.active_playlist_name, "Trip");
    p.event(&PlaylistsEvent::PlaylistDeleted("new".into()));
    assert_eq!(p.active_playlist_id, None);
    assert_eq!(p.status, "Playlist removed.");
}

#[test]
fn track_filter_ranks_and_keeps_all_for_blank() {
    let tracks = vec![t("1", "Hello", "Adele"), t("2", "Yellow", "Coldplay"), t("3", "Hey Jude", "Beatles")];
    let (all, idx) = filter_track_list(&tracks, "   ");
    assert_eq!(all.len(), 3);
    assert_eq!(idx, vec![0, 1, 2]);
    let (some, idx) = filter_track_list(&tracks, "coldplay");
    assert_eq!(some.len(), 1);
    assert_eq!(idx, vec![1]);
    assert_eq!(rank_matches(&vec![Some(3), None, Some(9), Some(3)]), vec![2, 0, 3]);
}

#[test]
fn preferences_pages_and_toggles() {
    let mut p = PreferencesData::new();
    assert_eq!(PreferencesPage::Appearance.localized_name(), "appearance");
    assert_eq!(Preference::Theme.localized_tags(), "theme_tags");
    p.event(&PreferencesEvent::Show);
    assert!(p.show);
    p.event(&PreferencesEvent::ToggleAutoplayOnQueueAdd);
    assert!(!p.autoplay_on_queue_add);
    p.event(&PreferencesEvent::SetSearch("theme".into()));
    let tags = vec!["language locale".to_string(), "theme dark light".to_string(), "autoplay queue".to_string(), "restore queue startup".to_string()];
    p.search(&tags);
    assert_eq!(p.filtered_preferences, vec![Preference::Theme]);
}

#[test]
fn preferences_save_and_load_back() {
    let mut p = PreferencesData::new();
    p.event(&PreferencesEvent::ToggleRestoreQueueOnStartup);
    p.event(&PreferencesEvent::SetSearch("dark".into()));
    let saved = p.snapshot();
    let mut q = PreferencesData::new();
    let mode = q.load(saved);
    assert_eq!(mode, audia::ui::preferences_data::ThemeMode::DarkMode);
    assert!(q.restore_queue_on_startup);
    assert_eq!(q.search_string, "dark");
    assert_eq!(q.selected_theme, p.selected_theme);
}

#[test]
fn preference_page_icons() {
    assert_eq!(PreferencesPage::General.icon(), PageIcon::Settings);
    assert_eq!(PreferencesPage::Appearance.icon(), PageIcon::Palette);
    assert_eq!(PreferencesPage::Playback.icon(), PageIcon::PlayerPlay);
}

#[test]
fn new_results_with_same_tracks_keep_the_selection() {
    let mut s = SearchState::new();
    let results = || SearchResultsData {
        tracks: vec![t("1", "A", "x"), t("2", "B", "y")],
        artists: vec![],
        albums: vec![],
    };
    s.event(&SearchEvent::Results(results()));
    s.selected_index = 1;
    s.event(&SearchEvent::Results(results()));
    assert_eq!(s.selected_index, 1);
    assert_eq!(s.selected_summary, "Selected #2: B - y");
    s.event(&SearchEvent::Results(SearchResultsData { tracks: vec![t("9", "Z", "z")], artists: vec![], albums: vec![] }));
    assert_eq!(s.selected_index, 0);
}
