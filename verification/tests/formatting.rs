use audia::messages::Album;
use audia::ui::events::SystemEvent;
use audia::ui::format::{
    album_subtitle, error_status, format_album_minutes, format_album_song_count,
    format_playlist_duration, format_song_count, format_time,
};
use audia::ui::model_data::{apply_system_event, initial_status_line};

#[test]
fn track_times() {
    assert_eq!(format_time(0), "0:00");
    assert_eq!(format_time(61_999), "1:01");
    assert_eq!(format_time(3_600_000), "60:00");
}

#[test]
fn playlist_lengths() {
    assert_eq!(format_playlist_duration(59_000), "0:59");
    assert_eq!(format_playlist_duration(3_599_999), "59:59");
    assert_eq!(format_playlist_duration(3_600_000), "1:00:00");
    assert_eq!(format_playlist_duration(37_230_000), "10:20:30");
}

#[test]
fn counts_and_minutes() {
    assert_eq!(format_song_count(1), "1 song");
    assert_eq!(format_song_count(0), "0 songs");
    assert_eq!(format_song_count(12), "12 songs");
    assert_eq!(format_album_song_count(1), "1 songs");
    assert_eq!(format_album_minutes(119_999), "1m");
}

#[test]
fn album_lines() {
    let mut a = Album {
        id: "i".into(),
        name: "n".into(),
        artist: "Band".into(),
        release_date: Some("2001-02-03".into()),
        image_url: None,
        image_key: None,
    };
    assert_eq!(album_subtitle(&a), "Band • 2001-02-03");
    a.release_date = None;
    assert_eq!(album_subtitle(&a), "Band");
}

#[test]
fn status_line_follows_notices() {
    let mut status = initial_status_line();
    assert_eq!(status, "Initializing...");
    apply_system_event(&mut status, SystemEvent::Ready, true);
    assert_eq!(status, "Initializing...");
    apply_system_event(&mut status, SystemEvent::Ready, false);
    assert_eq!(status, "Not logged in. Click Login with Spotify to continue.");
    apply_system_event(&mut status, SystemEvent::StatusMessage("Loading".into()), false);
    assert_eq!(status, "Loading");
    apply_system_event(&mut status, SystemEvent::Error("boom".into()), false);
    assert_eq!(status, "Error: boom");
    assert_eq!(error_status("x"), "Error: x");
}

#[test]
fn progress_bar_labels() {
    let (played, remaining) = audia::ui::format::progress_labels(2500, 200_000);
    assert_eq!(played, "0:50");
    assert_eq!(remaining, "-2:30");
    let (played, remaining) = audia::ui::format::progress_labels(0, 0);
    assert_eq!((played.as_str(), remaining.as_str()), ("0:00", "-0:00"));
}
