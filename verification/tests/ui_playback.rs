use audia::messages::{Album, Track};
use audia::ui::events::PlaybackEvent;
use audia::ui::model_data::CenterPage;
use audia::ui::playback_state::{
    persisted_local_volume_percent, random_order, PlaybackAction, PlaybackEnv, PlaybackState,
    QueueSnapshot,
};

fn t(id: &str, duration_ms: u32) -> Track {
    Track {
        id: id.to_string(),
        name: format!("song {id}"),
        artist: "artist".to_string(),
        duration_ms,
        album_image_url: Some(format!("http://img/{id}")),
        album_playback_image_url: None,
        album_image_key: None,
    }
}

fn env(now_ms: u64) -> PlaybackEnv {
    PlaybackEnv { now_ms, persisted_volume_percent: 65 }
}

fn ids(v: &[Track]) -> Vec<&str> {
    v.iter().map(|t| t.id.as_str()).collect()
}

#[test]
fn adding_to_empty_queue_autoplays() {
    let mut s = PlaybackState::new(80);
    let actions = s.event(&PlaybackEvent::AddToQueue(vec![t("a", 1000), t("b", 1000)]), &env(0));
    assert_eq!(ids(&s.queue_tracks), vec!["a", "b"]);
    assert_eq!(s.status, "Added 2 tracks to the queue.");
    assert_eq!(actions.len(), 2);
    assert!(matches!(actions[0], PlaybackAction::Emit(PlaybackEvent::Play)));
    assert!(matches!(actions[1], PlaybackAction::SaveQueue));
    let actions = s.event(&PlaybackEvent::AddToQueue(vec![t("c", 1000)]), &env(0));
    assert_eq!(actions.len(), 1);
    assert!(matches!(actions[0], PlaybackAction::SaveQueue));
}

#[test]
fn play_starts_the_queue() {
    let mut s = PlaybackState::new(80);
    s.event(&PlaybackEvent::AddToQueue(vec![t("a", 5000), t("b", 6000)]), &env(0));
    let actions = s.event(&PlaybackEvent::Play, &env(0));
    assert_eq!(s.queue_current_index, Some(0));
    assert!(s.playback_is_playing);
    assert_eq!(s.playback_duration_ms, 5000);
    assert_eq!(s.playback_track_name, "song a");
    assert_eq!(s.status, "Starting playback from queue on local device...");
    assert!(matches!(actions.last(), Some(PlaybackAction::PlayLocalTrack(tr)) if tr.id == "a"));
    assert!(matches!(&actions[0], PlaybackAction::LoadArtwork(u) if u == "http://img/a"));
}

#[test]
fn next_then_previous_restores_the_queue() {
    let mut s = PlaybackState::new(80);
    s.event(&PlaybackEvent::AddToQueue(vec![t("a", 5000), t("b", 6000), t("c", 7000)]), &env(0));
    s.event(&PlaybackEvent::Play, &env(0));
    let actions = s.event(&PlaybackEvent::Next, &env(0));
    assert_eq!(ids(&s.queue_tracks), vec!["b", "c"]);
    assert_eq!(ids(&s.recently_played), vec!["a"]);
    assert!(matches!(actions[0], PlaybackAction::SaveQueue));
    assert!(matches!(actions[1], PlaybackAction::Emit(PlaybackEvent::Play)));
    s.event(&PlaybackEvent::Previous, &env(0));
    assert_eq!(ids(&s.queue_tracks), vec!["a", "b", "c"]);
    assert!(s.recently_played.is_empty());
    assert_eq!(s.status, "Playing previous track from recently played...");
}

#[test]
fn next_play_progress_then_previous_restores_the_queue() {
    let mut s = PlaybackState::new(80);
    s.event(&PlaybackEvent::AddToQueue(vec![t("a", 5000), t("b", 60_000), t("c", 7000)]), &env(0));
    s.event(&PlaybackEvent::Play, &env(0));
    s.event(&PlaybackEvent::Next, &env(0));
    s.event(&PlaybackEvent::Play, &env(10));
    assert_eq!(s.playback_scrub_bp, 0);
    s.event(&PlaybackEvent::Progress { position_ms: 2000, duration_ms: 60_000, is_playing: true }, &env(5000));
    let actions = s.event(&PlaybackEvent::Previous, &env(6000));
    assert_eq!(ids(&s.queue_tracks), vec!["a", "b", "c"]);
    assert!(s.recently_played.is_empty());
    assert_eq!(s.queue_current_index, Some(0));
    assert_eq!(actions.len(), 1);
    assert!(matches!(actions[0], PlaybackAction::Emit(PlaybackEvent::Play)));
}

#[test]
fn next_on_last_track_reports_empty_queue() {
    let mut s = PlaybackState::new(80);
    s.event(&PlaybackEvent::AddToQueue(vec![t("a", 5000)]), &env(0));
    let actions = s.event(&PlaybackEvent::Next, &env(0));
    assert!(actions.is_empty());
    assert_eq!(s.status, "Queue is empty.");
}

#[test]
fn previous_late_in_track_restarts_it() {
    let mut s = PlaybackState::new(80);
    s.event(&PlaybackEvent::AddToQueue(vec![t("a", 100_000)]), &env(0));
    s.event(&PlaybackEvent::Play, &env(0));
    s.event(&PlaybackEvent::Progress { position_ms: 50_000, duration_ms: 100_000, is_playing: true }, &env(10_000));
    assert_eq!(s.playback_scrub_bp, 5000);
    s.event(&PlaybackEvent::Previous, &env(10_000));
    assert_eq!(s.status, "Restarting current track...");
}

#[test]
fn selecting_a_queue_entry_drops_what_came_before() {
    let mut s = PlaybackState::new(80);
    s.event(&PlaybackEvent::AddToQueue(vec![t("a", 1), t("b", 1), t("c", 1)]), &env(0));
    s.event(&PlaybackEvent::SelectQueueTrack(2), &env(0));
    assert_eq!(ids(&s.queue_tracks), vec!["c"]);
    assert_eq!(ids(&s.recently_played), vec!["a"]);
    assert_eq!(s.status, "Playing selected queue song on local device...");
}

#[test]
fn last_track_ending_ends_the_queue_and_debounces() {
    let mut s = PlaybackState::new(80);
    s.event(&PlaybackEvent::AddToQueue(vec![t("a", 1000)]), &env(0));
    s.event(&PlaybackEvent::Play, &env(0));
    let actions = s.event(&PlaybackEvent::LocalTrackEnded, &env(5_000));
    assert_eq!(s.status, "Reached end of queue.");
    assert!(s.queue_tracks.is_empty());
    assert!(!s.playback_is_playing);
    assert_eq!(actions.len(), 1);
    s.event(&PlaybackEvent::AddToQueue(vec![t("b", 1000)]), &env(5_100));
    let actions = s.event(&PlaybackEvent::LocalTrackEnded, &env(5_200));
    assert!(actions.is_empty());
    assert_eq!(ids(&s.queue_tracks), vec!["b"]);
}

#[test]
fn volume_mute_and_scrub() {
    let mut s = PlaybackState::new(80);
    let actions = s.event(&PlaybackEvent::SetVolume(130), &env(0));
    assert_eq!(s.playback_volume, 100);
    assert!(matches!(actions[0], PlaybackAction::SetLocalVolume(100)));
    let actions = s.event(&PlaybackEvent::ToggleMute, &env(0));
    assert!(s.playback_is_muted);
    assert!(matches!(actions[0], PlaybackAction::Emit(PlaybackEvent::SetVolume(0))));
    let actions = s.event(&PlaybackEvent::ToggleMute, &env(0));
    assert!(matches!(actions[0], PlaybackAction::Emit(PlaybackEvent::SetVolume(100))));
    assert!(s.event(&PlaybackEvent::SetScrub(5000), &env(0)).is_empty());
    s.event(&PlaybackEvent::AddToQueue(vec![t("a", 200_000)]), &env(0));
    s.event(&PlaybackEvent::Play, &env(0));
    let actions = s.event(&PlaybackEvent::SetScrub(2500), &env(1_000));
    assert!(matches!(actions[0], PlaybackAction::SeekLocal(50_000)));
    // A progress report right after the scrub does not move the slider.
    s.event(&PlaybackEvent::Progress { position_ms: 1_000, duration_ms: 200_000, is_playing: true }, &env(1_200));
    assert_eq!(s.playback_scrub_bp, 2500);
}

#[test]
fn session_ready_takes_saved_volume() {
    let mut s = PlaybackState::new(80);
    s.event(&PlaybackEvent::SessionReady, &env(0));
    assert!(s.playback_ready);
    assert_eq!(s.playback_volume, 65);
    assert_eq!(s.status, "Playback session is ready (OAuth token-based).");
    assert_eq!(persisted_local_volume_percent(None), 80);
    assert_eq!(persisted_local_volume_percent(Some(120)), 100);
    assert_eq!(persisted_local_volume_percent(Some(30)), 30);
}

#[test]
fn toggle_and_clear() {
    let mut s = PlaybackState::new(80);
    s.event(&PlaybackEvent::AddToQueue(vec![t("a", 1000)]), &env(0));
    let actions = s.event(&PlaybackEvent::Toggle, &env(0));
    assert!(matches!(actions[0], PlaybackAction::Emit(PlaybackEvent::Play)));
    s.event(&PlaybackEvent::Play, &env(0));
    let actions = s.event(&PlaybackEvent::Toggle, &env(0));
    assert!(matches!(actions[0], PlaybackAction::Emit(PlaybackEvent::Pause)));
    let actions = s.event(&PlaybackEvent::ClearQueue, &env(0));
    assert!(s.queue_tracks.is_empty());
    assert_eq!(s.queue_current_index, None);
    assert!(matches!(actions[1], PlaybackAction::Emit(PlaybackEvent::Stop)));
}

#[test]
fn shuffle_keeps_tracks_and_current_first() {
    let mut s = PlaybackState::new(80);
    let tracks: Vec<Track> = (0..8).map(|i| t(&i.to_string(), 1000)).collect();
    s.event(&PlaybackEvent::AddToQueue(tracks), &env(0));
    s.event(&PlaybackEvent::Play, &env(0));
    s.event(&PlaybackEvent::ShuffleQueue, &env(0));
    assert_eq!(s.queue_tracks[0].id, "0");
    let mut got = ids(&s.queue_tracks);
    got.sort();
    assert_eq!(got, vec!["0", "1", "2", "3", "4", "5", "6", "7"]);
    assert_eq!(s.status, "Queue shuffled.");
    let mut order = random_order(10);
    order.sort();
    assert_eq!(order, (0..10).collect::<Vec<usize>>());
}

#[test]
fn restoring_a_saved_queue() {
    let mut s = PlaybackState::new(80);
    s.restore_queue(Some(QueueSnapshot { queue_tracks: vec![t("a", 1)], recently_played: vec![] }));
    assert!(s.queue_tracks.is_empty());
    s.restore_queue_on_startup = true;
    s.restore_queue(Some(QueueSnapshot { queue_tracks: vec![t("a", 1)], recently_played: vec![t("z", 1)] }));
    assert_eq!(ids(&s.queue_tracks), vec!["a"]);
    assert_eq!(ids(&s.recently_played), vec!["z"]);
    assert_eq!(s.status, "Queue restored from last session.");
}

#[test]
fn opening_the_album_of_the_playing_track() {
    let mut s = PlaybackState::new(80);
    let actions = s.event(
        &PlaybackEvent::OpenAlbumFromPlayback { track_id: Some("tid".into()), image_key: None, image_url: None },
        &env(0),
    );
    assert!(matches!(actions[0], PlaybackAction::NavigateTo(CenterPage::AlbumTracks)));
    assert!(matches!(&actions[1], PlaybackAction::FetchAlbumFromTrack(id) if id == "tid"));
    s.search_album_rows = vec![Album {
        id: "al".into(),
        name: "Record".into(),
        artist: "x".into(),
        release_date: None,
        image_url: Some("u".into()),
        image_key: None,
    }];
    let actions = s.event(
        &PlaybackEvent::OpenAlbumFromPlayback { track_id: None, image_key: None, image_url: Some("u".into()) },
        &env(0),
    );
    assert_eq!(s.status, "Loading tracks for 'Record'...");
    assert!(matches!(&actions[1], PlaybackAction::FetchAlbumTracks(a) if a.id == "al"));
    s.event(
        &PlaybackEvent::OpenAlbumFromPlayback { track_id: None, image_key: None, image_url: Some("v".into()) },
        &env(0),
    );
    assert_eq!(s.status, "Album not found in current search results.");
}

#[test]
fn artwork_fades_only_on_change() {
    let mut s = PlaybackState::new(80);
    let actions = s.event(&PlaybackEvent::ArtworkLoaded { image_key: Some("k".into()) }, &env(0));
    assert!(matches!(actions[0], PlaybackAction::PlayArtworkFade));
    assert_eq!(s.playback_track_image_key.as_deref(), Some("k"));
    assert!(s.event(&PlaybackEvent::ArtworkLoaded { image_key: Some("k".into()) }, &env(0)).is_empty());
}

#[test]
fn volume_result_is_saved_or_reported() {
    let mut s = PlaybackState::new(80);
    let actions = s.volume_applied(40, Ok(()));
    assert!(matches!(actions[0], PlaybackAction::SaveLocalVolume(40)));
    let actions = s.volume_applied(40, Err("no mixer".into()));
    assert!(actions.is_empty());
    assert_eq!(s.status, "Failed to set local volume: no mixer");
}

#[test]
fn stop_stops_local_and_remote_playback() {
    let mut s = PlaybackState::new(80);
    s.event(&PlaybackEvent::AddToQueue(vec![t("a", 5000)]), &env(0));
    s.event(&PlaybackEvent::Play, &env(0));
    let actions = s.event(&PlaybackEvent::Stop, &env(10));
    assert_eq!(actions.len(), 2);
    assert!(matches!(actions[0], PlaybackAction::StopLocal));
    assert!(matches!(actions[1], PlaybackAction::StopRemote));
    assert!(!s.playback_is_playing);
    assert_eq!(s.playback_scrub_bp, 0);
    assert_eq!(s.playback_track_name, "");
}
