//! The state of each part of the interface, as state machines that take an
//! event and return the work (navigation, fetches, playback commands) that
//! the shell carries out.
pub mod events;
pub mod format;
pub mod model_data;
pub mod playback_state;
pub mod playback_laws;
pub mod center_state;
pub mod right_panel_state;
pub mod track_filter;
pub mod playlists_state;
pub mod search_state;
pub mod album_state;
pub mod artist_state;
pub mod oauth_state;
pub mod preferences_data;
