//! A Spotify client's logic: login, session, Web API requests and payloads,
//! local playback, and the state machines behind the interface.
pub mod artwork;
pub mod backend;
pub mod messages;
pub mod oauth;
pub mod playback;
pub mod spotify;
pub mod storage;
pub mod text;
pub mod ui;
