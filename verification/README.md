# audia

The logic of a Spotify desktop client, verified with Verus: the login with
PKCE and its local callback, the session's tokens and their refresh, the Web
API requests and the mapping of their payloads into tracks, albums, artists
and playlists, the local player's progress and end-of-track rules, and the
state machines behind each part of the interface (queue and playback bar,
search, playlists, album and artist pages, navigation, login dialog,
preferences).

Layout:

- `src/` — the verified library.
  - `oauth.rs`, `storage.rs`, `backend.rs` — login, saved credentials, session.
  - `spotify/` — request builders (`request.rs`), payload types and their
    mappings, image choice, paging.
  - `playback.rs` — the local player's handle and the commands it issues.
  - `artwork.rs` — artwork fetched after the results it belongs to.
  - `ui/` — one state machine per part of the interface, each an event
    handler that returns the work the shell performs, and the texts the
    views show.
  - `text.rs` — string helpers stated over `Seq<char>`.
- `tests/` — tests on concrete values.
- `app/` — a command-line shell: files on disk, HTTP, the callback listener,
  the browser.
  The shell has no windows: the widget toolkit of the desktop client (and
  the image decoder it uses only for the window icon) is not among the
  dependencies, so the views are not part of this crate. What they display
  comes from the `ui/` state machines and the formatting in `ui/format.rs`.
  The local player runs on librespot, which `app/local_player.rs` drives.
