use audia::messages::Track;
use audia::playback::{
    percent_to_librespot_volume, LocalPlaybackHandle, PlaybackService, PlayerCommand, PlayerEvent,
};

fn track(id: &str, duration_ms: u32) -> Track {
    Track {
        id: id.to_string(),
        name: "Song".to_string(),
        artist: "Band".to_string(),
        duration_ms,
        album_image_url: None,
        album_playback_image_url: None,
        album_image_key: None,
    }
}

fn ready() -> LocalPlaybackHandle {
    let mut s = PlaybackService::new();
    s.session_started();
    s.local
}

#[test]
fn volume_scale() {
    assert_eq!(percent_to_librespot_volume(0), 0);
    assert_eq!(percent_to_librespot_volume(50), 32767);
    assert_eq!(percent_to_librespot_volume(80), 52428);
    assert_eq!(percent_to_librespot_volume(100), 65535);
    assert_eq!(percent_to_librespot_volume(255), 65535);
}

#[test]
fn commands_need_mixer_and_player() {
    let mut h = LocalPlaybackHandle::new();
    assert_eq!(h.set_volume_percent(10), Err("Local mixer is not initialized".to_string()));
    assert_eq!(h.seek_to(5), Err("Local player is not initialized".to_string()));
    assert_eq!(h.resume(), Err("Local player is not initialized".to_string()));
    assert_eq!(h.pause(), Err("Local player is not initialized".to_string()));
    assert_eq!(h.stop(), Err("Local player is not initialized".to_string()));
    assert_eq!(h.play_track(&track("abc", 1000)), Err("Local player is not initialized".to_string()));
    assert_eq!(h.duration_ms, 0);
}

#[test]
fn session_start_sets_default_volume() {
    let mut s = PlaybackService::new();
    assert_eq!(s.session_started(), PlayerCommand::SetVolume(52428));
    assert!(s.session_ready && s.local.player_ready && s.local.mixer_ready);
    s.reset();
    assert!(!s.session_ready && !s.local.player_ready && !s.local.mixer_ready);
}

#[test]
fn play_track_resets_progress() {
    let mut h = ready();
    h.position_ms = 500;
    h.track_finished = true;
    assert_eq!(
        h.play_track(&track("4uLU6hMCjMI75M1A2tKUQC", 200_000)),
        Ok(PlayerCommand::LoadAndPlay("spotify:track:4uLU6hMCjMI75M1A2tKUQC".to_string()))
    );
    assert_eq!(h.playback_progress(), Some((0, 200_000, false)));
    assert!(h.loading_track && !h.track_finished);
    assert_eq!(h.seek_to(1234), Ok(PlayerCommand::Seek(1234)));
    assert_eq!(h.set_volume_percent(50), Ok(PlayerCommand::SetVolume(32767)));
}

#[test]
fn events_update_progress_and_clamp() {
    let mut h = ready();
    h.play_track(&track("t", 10_000)).unwrap();
    h.apply_player_event(PlayerEvent::Playing { position_ms: 1_000 });
    assert_eq!(h.playback_progress(), Some((1_000, 10_000, true)));
    assert!(!h.loading_track);
    h.apply_player_event(PlayerEvent::PositionChanged { position_ms: 12_000 });
    assert_eq!(h.position_ms, 10_000);
    h.apply_player_event(PlayerEvent::Paused { position_ms: 3_000 });
    assert_eq!(h.playback_progress(), Some((3_000, 10_000, false)));
    h.apply_player_event(PlayerEvent::Other);
    assert_eq!(h.playback_progress(), Some((3_000, 10_000, false)));
}

#[test]
fn stop_near_end_finishes_track() {
    let mut h = ready();
    h.play_track(&track("t", 10_000)).unwrap();
    h.apply_player_event(PlayerEvent::Playing { position_ms: 9_300 });
    h.apply_player_event(PlayerEvent::Stopped);
    assert!(h.track_finished);
    assert!(h.consume_track_finished());
    assert!(!h.consume_track_finished());
}

#[test]
fn stop_far_from_end_or_while_loading_does_not_finish() {
    let mut h = ready();
    h.play_track(&track("t", 10_000)).unwrap();
    h.apply_player_event(PlayerEvent::Stopped);
    assert!(!h.track_finished);
    h.apply_player_event(PlayerEvent::EndOfTrack);
    assert!(!h.track_finished);
    h.apply_player_event(PlayerEvent::Seeked { position_ms: 5_000 });
    h.apply_player_event(PlayerEvent::Stopped);
    assert!(!h.track_finished);
    h.apply_player_event(PlayerEvent::EndOfTrack);
    assert!(h.track_finished);
}

#[test]
fn stall_at_end_is_reported_once() {
    let mut h = ready();
    h.play_track(&track("t", 10_000)).unwrap();
    h.apply_player_event(PlayerEvent::Paused { position_ms: 9_200 });
    assert!(h.mark_track_finished_if_stalled());
    assert!(!h.mark_track_finished_if_stalled());
    assert!(h.consume_track_finished());
    assert!(!h.consume_track_finished());
}

#[test]
fn no_stall_while_playing_or_early() {
    let mut h = ready();
    h.play_track(&track("t", 10_000)).unwrap();
    assert!(!h.mark_track_finished_if_stalled());
    h.apply_player_event(PlayerEvent::Playing { position_ms: 9_900 });
    assert!(!h.mark_track_finished_if_stalled());
    h.apply_player_event(PlayerEvent::Paused { position_ms: 9_000 });
    assert!(!h.mark_track_finished_if_stalled());
}

#[test]
fn stop_returns_to_start() {
    let mut h = ready();
    h.play_track(&track("t", 10_000)).unwrap();
    h.apply_player_event(PlayerEvent::Playing { position_ms: 4_000 });
    assert_eq!(h.stop(), Ok(PlayerCommand::Stop));
    assert_eq!(h.playback_progress(), Some((0, 10_000, false)));
}

#[test]
fn bootstrap_token_must_not_be_blank() {
    assert_eq!(
        PlaybackService::check_bootstrap_token("  \t"),
        Err("Access token is required for playback bootstrap".to_string())
    );
    assert_eq!(PlaybackService::check_bootstrap_token(" tok "), Ok(()));
}
