//! The playlist sidebar and the playlist page: which playlist is open, its
//! tracks and their filter, and the create / rename dialogs.
use vstd::prelude::*;
use vstd::string::StringExecFns;

use crate::messages::{PlaylistEntry, Track, clone_entries, clone_opt_string, clone_tracks, opt_view};
use crate::text::{concat3, is_blank, str_eq, trim, trim_str};
use crate::ui::events::PlaylistsEvent;
use crate::ui::model_data::CenterPage;
use crate::ui::track_filter::{filter_track_list, filter_tracks, lemma_rank_below, track_scores};

verus! {

/// Work that the shell carries out after the state changed.
#[derive(Debug)]
pub enum PlaylistsAction {
    RefreshUserPlaylists,
    /// Cancel the playlist fetch that is still running, if any.
    CancelPlaylistTask,
    FetchPlaylistTracks { id: String, name: String, request_id: u64 },
    NavigateTo(CenterPage),
    CreatePlaylist(String),
    RenamePlaylist { id: String, name: String },
    DeletePlaylist(String),
    ClearQueue,
    AddPlaylistToQueue,
    AddToQueue(Vec<Track>),
    ShuffleQueue,
    AddTrackToPlaylist { track_id: String, playlist_id: String },
    RemoveTrackFromPlaylist { track_id: String, playlist_id: String, playlist_name: String, request_id: u64 },
}

/// The mathematical value of a `PlaylistsAction`.
pub enum PlaylistsActionView {
    RefreshUserPlaylists,
    CancelPlaylistTask,
    FetchPlaylistTracks { id: Seq<char>, name: Seq<char>, request_id: u64 },
    NavigateTo(CenterPage),
    CreatePlaylist(Seq<char>),
    RenamePlaylist { id: Seq<char>, name: Seq<char> },
    DeletePlaylist(Seq<char>),
    ClearQueue,
    AddPlaylistToQueue,
    AddToQueue(Seq<Track>),
    ShuffleQueue,
    AddTrackToPlaylist { track_id: Seq<char>, playlist_id: Seq<char> },
    RemoveTrackFromPlaylist { track_id: Seq<char>, playlist_id: Seq<char>, playlist_name: Seq<char>, request_id: u64 },
}

impl View for PlaylistsAction {
    type V = PlaylistsActionView;

    open spec fn view(&self) -> PlaylistsActionView {
        match self {
            PlaylistsAction::RefreshUserPlaylists => PlaylistsActionView::RefreshUserPlaylists,
            PlaylistsAction::CancelPlaylistTask => PlaylistsActionView::CancelPlaylistTask,
            PlaylistsAction::FetchPlaylistTracks { id, name, request_id } =>
                PlaylistsActionView::FetchPlaylistTracks { id: id@, name: name@, request_id: *request_id },
            PlaylistsAction::NavigateTo(p) => PlaylistsActionView::NavigateTo(*p),
            PlaylistsAction::CreatePlaylist(n) => PlaylistsActionView::CreatePlaylist(n@),
            PlaylistsAction::RenamePlaylist { id, name } => PlaylistsActionView::RenamePlaylist { id: id@, name: name@ },
            PlaylistsAction::DeletePlaylist(id) => PlaylistsActionView::DeletePlaylist(id@),
            PlaylistsAction::ClearQueue => PlaylistsActionView::ClearQueue,
            PlaylistsAction::AddPlaylistToQueue => PlaylistsActionView::AddPlaylistToQueue,
            PlaylistsAction::AddToQueue(t) => PlaylistsActionView::AddToQueue(t@),
            PlaylistsAction::ShuffleQueue => PlaylistsActionView::ShuffleQueue,
            PlaylistsAction::AddTrackToPlaylist { track_id, playlist_id } =>
                PlaylistsActionView::AddTrackToPlaylist { track_id: track_id@, playlist_id: playlist_id@ },
            PlaylistsAction::RemoveTrackFromPlaylist { track_id, playlist_id, playlist_name, request_id } =>
                PlaylistsActionView::RemoveTrackFromPlaylist {
                    track_id: track_id@,
                    playlist_id: playlist_id@,
                    playlist_name: playlist_name@,
                    request_id: *request_id,
                },
        }
    }
}

/// The views of a list of actions.
pub open spec fn actions_view(a: Seq<PlaylistsAction>) -> Seq<PlaylistsActionView> {
    a.map_values(|x: PlaylistsAction| x@)
}

/// The playlists part of the interface.
#[derive(Debug)]
pub struct PlaylistsState {
    pub status: String,
    pub show_create_playlist_modal: bool,
    pub create_playlist_name: String,
    pub is_creating_playlist: bool,
    pub show_rename_playlist_modal: bool,
    pub rename_playlist_id: String,
    pub rename_playlist_name: String,
    pub is_renaming_playlist: bool,
    pub playlist_rows: Vec<PlaylistEntry>,
    pub playlist_tracks: Vec<Track>,
    pub filtered_playlist_tracks: Vec<Track>,
    pub filtered_track_indices: Vec<usize>,
    pub track_filter_input: String,
    pub active_playlist_id: Option<String>,
    pub active_playlist_name: String,
    pub active_playlist_track_count: usize,
    pub active_playlist_duration_ms: u64,
    pub active_playlist_image_key: Option<String>,
    pub playlist_selected_index: usize,
    pub shuffle_mode: bool,
    pub current_playlist_request_id: u64,
}

/// The mathematical value of a `PlaylistsState`.
#[verifier::ext_equal]
pub struct PlaylistsModel {
    pub status: Seq<char>,
    pub show_create: bool,
    pub create_name: Seq<char>,
    pub is_creating: bool,
    pub show_rename: bool,
    pub rename_id: Seq<char>,
    pub rename_name: Seq<char>,
    pub is_renaming: bool,
    pub rows: Seq<PlaylistEntry>,
    pub tracks: Seq<Track>,
    pub filtered_tracks: Seq<Track>,
    pub filtered_indices: Seq<usize>,
    pub filter_input: Seq<char>,
    pub active_id: Option<Seq<char>>,
    pub active_name: Seq<char>,
    pub active_count: usize,
    pub active_duration_ms: u64,
    pub active_image_key: Option<Seq<char>>,
    pub selected_index: usize,
    pub shuffle_mode: bool,
    pub request_id: u64,
}

impl View for PlaylistsState {
    type V = PlaylistsModel;

    open spec fn view(&self) -> PlaylistsModel {
        PlaylistsModel {
            status: self.status@,
            show_create: self.show_create_playlist_modal,
            create_name: self.create_playlist_name@,
            is_creating: self.is_creating_playlist,
            show_rename: self.show_rename_playlist_modal,
            rename_id: self.rename_playlist_id@,
            rename_name: self.rename_playlist_name@,
            is_renaming: self.is_renaming_playlist,
            rows: self.playlist_rows@,
            tracks: self.playlist_tracks@,
            filtered_tracks: self.filtered_playlist_tracks@,
            filtered_indices: self.filtered_track_indices@,
            filter_input: self.track_filter_input@,
            active_id: opt_view(self.active_playlist_id),
            active_name: self.active_playlist_name@,
            active_count: self.active_playlist_track_count,
            active_duration_ms: self.active_playlist_duration_ms,
            active_image_key: opt_view(self.active_playlist_image_key),
            selected_index: self.playlist_selected_index,
            shuffle_mode: self.shuffle_mode,
            request_id: self.current_playlist_request_id,
        }
    }
}

// ------------------------------------------------------------------ specs
/// `r + 1`, stopping at the largest request number.
pub open spec fn next_request_id(r: u64) -> u64 {
    if r < u64::MAX { (r + 1) as u64 } else { r }
}

/// The model with its filtered list recomputed from its tracks and filter.
pub open spec fn refiltered(m: PlaylistsModel) -> PlaylistsModel {
    PlaylistsModel {
        filtered_tracks: filter_tracks(m.tracks, m.filter_input).0,
        filtered_indices: filter_tracks(m.tracks, m.filter_input).1,
        ..m
    }
}

/// The position of the first row whose playlist id is `id`.
pub open spec fn first_row_with_id(rows: Seq<PlaylistEntry>, id: Seq<char>) -> Option<int>
    decreases rows.len(),
{
    if rows.len() == 0 {
        None
    } else if rows[0].id@ == id {
        Some(0)
    } else {
        match first_row_with_id(rows.drop_first(), id) {
            Some(i) => Some(i + 1),
            None => None,
        }
    }
}

/// Whether the open playlist is `id`.
pub open spec fn is_active(m: PlaylistsModel, id: Seq<char>) -> bool {
    m.active_id == Some(id)
}

/// The effect of loaded playlist tracks that answer the latest request.
pub open spec fn show_tracks(m: PlaylistsModel, id: Seq<char>, name: Seq<char>, tracks: Seq<Track>, count: usize, duration: u64) -> PlaylistsModel {
    let m1 = refiltered(PlaylistsModel {
        active_id: Some(id),
        active_name: name,
        active_count: count,
        active_duration_ms: duration,
        tracks: tracks,
        filter_input: Seq::empty(),
        selected_index: 0,
        ..m
    });
    match first_row_with_id(m.rows, id) {
        Some(i) => PlaylistsModel {
            rows: m.rows.update(i, PlaylistEntry { total_duration_ms: duration, track_count: count, ..m.rows[i] }),
            active_image_key: opt_view(m.rows[i].image_key),
            ..m1
        },
        None => m1,
    }
}

/// The effect of every playlists event.
pub open spec fn playlists_step(m: PlaylistsModel, e: PlaylistsEvent) -> (PlaylistsModel, Seq<PlaylistsActionView>) {
    match e {
        PlaylistsEvent::Playlists(rows) => (PlaylistsModel { rows: rows@, ..m }, Seq::empty()),
        PlaylistsEvent::HydrateUserPlaylistsArtwork { .. } => (m, Seq::empty()),
        PlaylistsEvent::RefreshUserPlaylists => (m, seq![PlaylistsActionView::RefreshUserPlaylists]),
        PlaylistsEvent::RefreshPlaylistTracks { request_id, id, name } => (PlaylistsModel { request_id: request_id, ..m },
            seq![PlaylistsActionView::CancelPlaylistTask,
                 PlaylistsActionView::FetchPlaylistTracks { id: id@, name: name@, request_id: request_id }]),
        PlaylistsEvent::PlaylistCreated { id, name } => (PlaylistsModel {
            is_creating: false,
            show_create: false,
            create_name: Seq::empty(),
            status: "Created playlist '"@ + name@ + "'."@,
            active_id: Some(id@),
            active_name: name@,
            ..m
        }, Seq::empty()),
        PlaylistsEvent::PlaylistCreateFailed(msg) => (PlaylistsModel { is_creating: false, status: msg@, ..m }, Seq::empty()),
        PlaylistsEvent::PlaylistRenamed { id, name } => {
            let m1 = PlaylistsModel {
                is_renaming: false,
                show_rename: false,
                rename_name: Seq::empty(),
                status: "Renamed playlist to '"@ + name@ + "'."@,
                ..m
            };
            (if is_active(m, id@) { PlaylistsModel { active_name: name@, ..m1 } } else { m1 }, Seq::empty())
        },
        PlaylistsEvent::PlaylistRenameFailed(msg) => (PlaylistsModel { is_renaming: false, status: msg@, ..m }, Seq::empty()),
        PlaylistsEvent::PlaylistDeleted(id) => {
            let m1 = if is_active(m, id@) {
                PlaylistsModel {
                    active_id: None,
                    active_name: Seq::empty(),
                    tracks: Seq::empty(),
                    filtered_tracks: Seq::empty(),
                    ..m
                }
            } else {
                m
            };
            (PlaylistsModel { status: "Playlist removed."@, ..m1 }, Seq::empty())
        },
        PlaylistsEvent::PlaylistDeleteFailed(msg) => (PlaylistsModel { status: msg@, ..m }, Seq::empty()),
        PlaylistsEvent::PlaylistTracks { request_id, id, name, tracks, track_count, total_duration_ms } => {
            if request_id != m.request_id {
                (m, Seq::empty())
            } else {
                (show_tracks(m, id@, name@, tracks@, track_count, total_duration_ms),
                    seq![PlaylistsActionView::NavigateTo(CenterPage::PlaylistTracks)])
            }
        },
        PlaylistsEvent::OpenCreatePlaylistModal => (PlaylistsModel { show_create: true, create_name: Seq::empty(), ..m }, Seq::empty()),
        PlaylistsEvent::CloseCreatePlaylistModal => (PlaylistsModel {
            show_create: false,
            create_name: Seq::empty(),
            is_creating: false,
            ..m
        }, Seq::empty()),
        PlaylistsEvent::SetCreatePlaylistName(v) => (PlaylistsModel { create_name: v@, ..m }, Seq::empty()),
        PlaylistsEvent::SubmitCreatePlaylist => {
            if m.is_creating {
                (m, Seq::empty())
            } else if trim(m.create_name).len() == 0 {
                (PlaylistsModel { status: "Please enter a playlist name before creating it."@, ..m }, Seq::empty())
            } else {
                (PlaylistsModel {
                    is_creating: true,
                    status: "Creating playlist '"@ + trim(m.create_name) + "'..."@,
                    ..m
                }, seq![PlaylistsActionView::CreatePlaylist(trim(m.create_name))])
            }
        },
        PlaylistsEvent::OpenRenamePlaylistModal { id, name } => (PlaylistsModel {
            rename_id: id@,
            rename_name: name@,
            show_rename: true,
            ..m
        }, Seq::empty()),
        PlaylistsEvent::CloseRenamePlaylistModal => (PlaylistsModel {
            show_rename: false,
            rename_name: Seq::empty(),
            is_renaming: false,
            ..m
        }, Seq::empty()),
        PlaylistsEvent::SetRenamePlaylistName(v) => (PlaylistsModel { rename_name: v@, ..m }, Seq::empty()),
        PlaylistsEvent::SubmitRenamePlaylist => {
            if m.is_renaming {
                (m, Seq::empty())
            } else if trim(m.rename_name).len() == 0 {
                (PlaylistsModel { status: "Please enter a playlist name."@, ..m }, Seq::empty())
            } else {
                (PlaylistsModel {
                    is_renaming: true,
                    status: "Renaming playlist to '"@ + trim(m.rename_name) + "'..."@,
                    ..m
                }, seq![PlaylistsActionView::RenamePlaylist { id: m.rename_id, name: trim(m.rename_name) }])
            }
        },
        PlaylistsEvent::DeletePlaylist(id) => (PlaylistsModel { status: "Removing playlist..."@, ..m },
            seq![PlaylistsActionView::DeletePlaylist(id@)]),
        PlaylistsEvent::ShufflePlaylist => (PlaylistsModel { shuffle_mode: !m.shuffle_mode, ..m }, Seq::empty()),
        PlaylistsEvent::SetTrackFilter(v) => (PlaylistsModel {
            selected_index: 0,
            ..refiltered(PlaylistsModel { filter_input: v@, ..m })
        }, Seq::empty()),
        PlaylistsEvent::SelectPlaylist(index) => {
            if index >= m.rows.len() {
                (PlaylistsModel { status: "Selected playlist is unavailable."@, ..m }, Seq::empty())
            } else {
                let p = m.rows[index as int];
                if is_active(m, p.id@) && m.tracks.len() > 0 {
                    (PlaylistsModel { status: "Showing cached playlist '"@ + p.name@ + "'..."@, ..m },
                        seq![PlaylistsActionView::NavigateTo(CenterPage::PlaylistTracks)])
                } else {
                    let r = next_request_id(m.request_id);
                    (PlaylistsModel {
                        status: "Loading playlist '"@ + p.name@ + "'..."@,
                        active_count: p.track_count,
                        active_duration_ms: p.total_duration_ms,
                        active_image_key: opt_view(p.image_key),
                        request_id: r,
                        ..m
                    }, seq![PlaylistsActionView::CancelPlaylistTask,
                            PlaylistsActionView::FetchPlaylistTracks { id: p.id@, name: p.name@, request_id: r }])
                }
            }
        },
        PlaylistsEvent::PlayPlaylist => (m, seq![PlaylistsActionView::ClearQueue, PlaylistsActionView::AddPlaylistToQueue]),
        PlaylistsEvent::AddPlaylistToQueue => {
            if m.tracks.len() == 0 {
                (PlaylistsModel { status: "Playlist has no tracks to add."@, ..m }, Seq::empty())
            } else if m.shuffle_mode {
                (m, seq![PlaylistsActionView::AddToQueue(m.tracks), PlaylistsActionView::ShuffleQueue])
            } else {
                (m, seq![PlaylistsActionView::AddToQueue(m.tracks)])
            }
        },
        PlaylistsEvent::PlaylistTrackSelected(index) => {
            if index >= m.filtered_indices.len() {
                (PlaylistsModel { status: "Selected playlist track is unavailable."@, ..m }, Seq::empty())
            } else {
                (PlaylistsModel { selected_index: index, ..m },
                    seq![PlaylistsActionView::AddToQueue(seq![m.tracks[m.filtered_indices[index as int] as int]])])
            }
        },
        PlaylistsEvent::AddTrackToPlaylist { track_id, playlist_id } => (PlaylistsModel { status: "Adding track to playlist..."@, ..m },
            seq![PlaylistsActionView::AddTrackToPlaylist { track_id: track_id@, playlist_id: playlist_id@ }]),
        PlaylistsEvent::RemoveTrackFromPlaylist { track_id, playlist_id } => {
            let r = next_request_id(m.request_id);
            (PlaylistsModel { status: "Removing track from playlist..."@, request_id: r, ..m },
                seq![PlaylistsActionView::CancelPlaylistTask,
                     PlaylistsActionView::RemoveTrackFromPlaylist {
                         track_id: track_id@,
                         playlist_id: playlist_id@,
                         playlist_name: m.active_name,
                         request_id: r,
                     }])
        },
    }
}

/// What an event needs of the state: a selected track of the filtered list
/// points into the track list.
pub open spec fn playlists_event_ok(m: PlaylistsModel, e: PlaylistsEvent) -> bool {
    e matches PlaylistsEvent::PlaylistTrackSelected(i) ==> (i < m.filtered_indices.len() ==> m.filtered_indices[i as int] < m.tracks.len())
}

fn lit(s: &str) -> (out: String)
    ensures
        out@ == s@,
{
    String::from_str(s)
}

fn find_row(rows: &Vec<PlaylistEntry>, id: &String) -> (r: Option<usize>)
    ensures
        match r {
            Some(i) => first_row_with_id(rows@, id@) == Some(i as int) && i < rows@.len(),
            None => first_row_with_id(rows@, id@) is None,
        },
{
    let mut i: usize = 0;
    assert(rows@.skip(0) =~= rows@);
    while i < rows.len()
        invariant
            i <= rows.len(),
            first_row_with_id(rows@, id@) == (match first_row_with_id(rows@.skip(i as int), id@) {
                Some(j) => Some(j + i),
                None => None,
            }),
        decreases rows.len() - i,
    {
        proof {
            assert(rows@.skip(i as int).drop_first() =~= rows@.skip(i + 1));
            assert(rows@.skip(i as int)[0] == rows@[i as int]);
        }
        if str_eq(rows[i].id.as_str(), id.as_str()) {
            return Some(i);
        }
        i += 1;
    }
    assert(rows@.skip(i as int) =~= Seq::<PlaylistEntry>::empty());
    None
}

fn is_active_id(active: &Option<String>, id: &String) -> (b: bool)
    ensures
        b == (opt_view(*active) == Some(id@)),
{
    match active {
        Some(a) => str_eq(a.as_str(), id.as_str()),
        None => false,
    }
}

fn bump(r: u64) -> (n: u64)
    ensures
        n == next_request_id(r),
{
    r.saturating_add(1)
}

impl PlaylistsState {
    /// A fresh state: no playlists, nothing open.
    pub fn new() -> (s: Self)
        ensures
            s@.rows.len() == 0,
            s@.tracks.len() == 0,
            s@.active_id is None,
            !s@.show_create && !s@.show_rename && !s@.is_creating && !s@.is_renaming,
            !s@.shuffle_mode,
            s@.request_id == 0,
    {
        PlaylistsState {
            status: String::new(),
            show_create_playlist_modal: false,
            create_playlist_name: String::new(),
            is_creating_playlist: false,
            show_rename_playlist_modal: false,
            rename_playlist_id: String::new(),
            rename_playlist_name: String::new(),
            is_renaming_playlist: false,
            playlist_rows: Vec::new(),
            playlist_tracks: Vec::new(),
            filtered_playlist_tracks: Vec::new(),
            filtered_track_indices: Vec::new(),
            track_filter_input: String::new(),
            active_playlist_id: None,
            active_playlist_name: String::new(),
            active_playlist_track_count: 0,
            active_playlist_duration_ms: 0,
            active_playlist_image_key: None,
            playlist_selected_index: 0,
            shuffle_mode: false,
            current_playlist_request_id: 0,
        }
    }

    /// Recomputes the filtered track list from the tracks and the filter text.
    pub fn apply_track_filter(&mut self)
        ensures
            final(self)@ == refiltered(old(self)@),
    {
        let (shown, idx) = filter_track_list(&self.playlist_tracks, self.track_filter_input.as_str());
        self.filtered_playlist_tracks = shown;
        self.filtered_track_indices = idx;
    }

    fn on_tracks(&mut self, id: &String, name: &String, tracks: &Vec<Track>, track_count: usize, total_duration_ms: u64)
        ensures
            final(self)@ == show_tracks(old(self)@, id@, name@, tracks@, track_count, total_duration_ms),
    {
        let ghost m = self@;
        let found = find_row(&self.playlist_rows, id);
        self.active_playlist_id = Some(id.clone());
        self.active_playlist_name = name.clone();
        self.active_playlist_track_count = track_count;
        self.active_playlist_duration_ms = total_duration_ms;
        self.playlist_tracks = clone_tracks(tracks);
        self.track_filter_input = String::new();
        self.apply_track_filter();
        self.playlist_selected_index = 0;
        if let Some(i) = found {
            let mut row = self.playlist_rows[i].clone();
            row.total_duration_ms = total_duration_ms;
            row.track_count = track_count;
            self.active_playlist_image_key = clone_opt_string(&row.image_key);
            self.playlist_rows.set(i, row);
        }
        assert(self@ =~= show_tracks(m, id@, name@, tracks@, track_count, total_duration_ms));
    }

    fn submit_create(&mut self) -> (actions: Vec<PlaylistsAction>)
        ensures
            final(self)@ == playlists_step(old(self)@, PlaylistsEvent::SubmitCreatePlaylist).0,
            actions_view(actions@) == playlists_step(old(self)@, PlaylistsEvent::SubmitCreatePlaylist).1,
    {
        if self.is_creating_playlist {
            return Vec::new();
        }
        let trimmed = trim_str(self.create_playlist_name.as_str());
        if is_blank(trimmed.as_str()) {
            proof { crate::text::lemma_trim_idempotent(self.create_playlist_name@); }
            self.status = lit("Please enter a playlist name before creating it.");
            return Vec::new();
        }
        proof { crate::text::lemma_trim_idempotent(self.create_playlist_name@); }
        self.is_creating_playlist = true;
        self.status = concat3("Creating playlist '", trimmed.as_str(), "'...");
        let actions = vec![PlaylistsAction::CreatePlaylist(trimmed)];
        assert(actions_view(actions@) =~= playlists_step(old(self)@, PlaylistsEvent::SubmitCreatePlaylist).1);
        actions
    }

    fn submit_rename(&mut self) -> (actions: Vec<PlaylistsAction>)
        ensures
            final(self)@ == playlists_step(old(self)@, PlaylistsEvent::SubmitRenamePlaylist).0,
            actions_view(actions@) == playlists_step(old(self)@, PlaylistsEvent::SubmitRenamePlaylist).1,
    {
        if self.is_renaming_playlist {
            return Vec::new();
        }
        let trimmed = trim_str(self.rename_playlist_name.as_str());
        proof { crate::text::lemma_trim_idempotent(self.rename_playlist_name@); }
        if is_blank(trimmed.as_str()) {
            self.status = lit("Please enter a playlist name.");
            return Vec::new();
        }
        self.is_renaming_playlist = true;
        self.status = concat3("Renaming playlist to '", trimmed.as_str(), "'...");
        let actions = vec![PlaylistsAction::RenamePlaylist { id: self.rename_playlist_id.clone(), name: trimmed }];
        assert(actions_view(actions@) =~= playlists_step(old(self)@, PlaylistsEvent::SubmitRenamePlaylist).1);
        actions
    }

    fn select_playlist(&mut self, index: usize) -> (actions: Vec<PlaylistsAction>)
        ensures
            final(self)@ == playlists_step(old(self)@, PlaylistsEvent::SelectPlaylist(index)).0,
            actions_view(actions@) == playlists_step(old(self)@, PlaylistsEvent::SelectPlaylist(index)).1,
    {
        if index >= self.playlist_rows.len() {
            self.status = lit("Selected playlist is unavailable.");
            return Vec::new();
        }
        let p = self.playlist_rows[index].clone();
        if is_active_id(&self.active_playlist_id, &p.id) && self.playlist_tracks.len() > 0 {
            self.status = concat3("Showing cached playlist '", p.name.as_str(), "'...");
            let actions = vec![PlaylistsAction::NavigateTo(CenterPage::PlaylistTracks)];
            assert(actions_view(actions@) =~= playlists_step(old(self)@, PlaylistsEvent::SelectPlaylist(index)).1);
            return actions;
        }
        self.status = concat3("Loading playlist '", p.name.as_str(), "'...");
        self.active_playlist_track_count = p.track_count;
        self.active_playlist_duration_ms = p.total_duration_ms;
        self.active_playlist_image_key = clone_opt_string(&p.image_key);
        self.current_playlist_request_id = bump(self.current_playlist_request_id);
        let actions = vec![
            PlaylistsAction::CancelPlaylistTask,
            PlaylistsAction::FetchPlaylistTracks { id: p.id, name: p.name, request_id: self.current_playlist_request_id },
        ];
        assert(actions_view(actions@) =~= playlists_step(old(self)@, PlaylistsEvent::SelectPlaylist(index)).1);
        actions
    }

    /// Handles one playlists event and returns the work it asks for.
    pub fn event(&mut self, event: &PlaylistsEvent) -> (actions: Vec<PlaylistsAction>)
        requires
            playlists_event_ok(old(self)@, *event),
        ensures
            final(self)@ == playlists_step(old(self)@, *event).0,
            actions_view(actions@) == playlists_step(old(self)@, *event).1,
    {
        let ghost m = self@;
        let ghost e = *event;
        let actions: Vec<PlaylistsAction> = match event {
            PlaylistsEvent::Playlists(rows) => {
                self.playlist_rows = clone_entries(rows);
                Vec::new()
            },
            PlaylistsEvent::HydrateUserPlaylistsArtwork { .. } => Vec::new(),
            PlaylistsEvent::RefreshUserPlaylists => vec![PlaylistsAction::RefreshUserPlaylists],
            PlaylistsEvent::RefreshPlaylistTracks { request_id, id, name } => {
                self.current_playlist_request_id = *request_id;
                vec![PlaylistsAction::CancelPlaylistTask,
                     PlaylistsAction::FetchPlaylistTracks { id: id.clone(), name: name.clone(), request_id: *request_id }]
            },
            PlaylistsEvent::PlaylistCreated { id, name } => {
                self.is_creating_playlist = false;
                self.show_create_playlist_modal = false;
                self.create_playlist_name = String::new();
                self.status = concat3("Created playlist '", name.as_str(), "'.");
                self.active_playlist_id = Some(id.clone());
                self.active_playlist_name = name.clone();
                Vec::new()
            },
            PlaylistsEvent::PlaylistCreateFailed(msg) => {
                self.is_creating_playlist = false;
                self.status = msg.clone();
                Vec::new()
            },
            PlaylistsEvent::PlaylistRenamed { id, name } => {
                self.is_renaming_playlist = false;
                self.show_rename_playlist_modal = false;
                self.rename_playlist_name = String::new();
                self.status = concat3("Renamed playlist to '", name.as_str(), "'.");
                if is_active_id(&self.active_playlist_id, id) {
                    self.active_playlist_name = name.clone();
                }
                Vec::new()
            },
            PlaylistsEvent::PlaylistRenameFailed(msg) => {
                self.is_renaming_playlist = false;
                self.status = msg.clone();
                Vec::new()
            },
            PlaylistsEvent::PlaylistDeleted(id) => {
                if is_active_id(&self.active_playlist_id, id) {
                    self.active_playlist_id = None;
                    self.active_playlist_name = String::new();
                    self.playlist_tracks = Vec::new();
                    self.filtered_playlist_tracks = Vec::new();
                }
                self.status = lit("Playlist removed.");
                Vec::new()
            },
            PlaylistsEvent::PlaylistDeleteFailed(msg) => {
                self.status = msg.clone();
                Vec::new()
            },
            PlaylistsEvent::PlaylistTracks { request_id, id, name, tracks, track_count, total_duration_ms } => {
                if *request_id != self.current_playlist_request_id {
                    Vec::new()
                } else {
                    self.on_tracks(id, name, tracks, *track_count, *total_duration_ms);
                    vec![PlaylistsAction::NavigateTo(CenterPage::PlaylistTracks)]
                }
            },
            PlaylistsEvent::OpenCreatePlaylistModal => {
                self.show_create_playlist_modal = true;
                self.create_playlist_name = String::new();
                Vec::new()
            },
            PlaylistsEvent::CloseCreatePlaylistModal => {
                self.show_create_playlist_modal = false;
                self.create_playlist_name = String::new();
                self.is_creating_playlist = false;
                Vec::new()
            },
            PlaylistsEvent::SetCreatePlaylistName(v) => {
                self.create_playlist_name = v.clone();
                Vec::new()
            },
            PlaylistsEvent::SubmitCreatePlaylist => self.submit_create(),
            PlaylistsEvent::OpenRenamePlaylistModal { id, name } => {
                self.rename_playlist_id = id.clone();
                self.rename_playlist_name = name.clone();
                self.show_rename_playlist_modal = true;
                Vec::new()
            },
            PlaylistsEvent::CloseRenamePlaylistModal => {
                self.show_rename_playlist_modal = false;
                self.rename_playlist_name = String::new();
                self.is_renaming_playlist = false;
                Vec::new()
            },
            PlaylistsEvent::SetRenamePlaylistName(v) => {
                self.rename_playlist_name = v.clone();
                Vec::new()
            },
            PlaylistsEvent::SubmitRenamePlaylist => self.submit_rename(),
            PlaylistsEvent::DeletePlaylist(id) => {
                self.status = lit("Removing playlist...");
                vec![PlaylistsAction::DeletePlaylist(id.clone())]
            },
            PlaylistsEvent::ShufflePlaylist => {
                self.shuffle_mode = !self.shuffle_mode;
                Vec::new()
            },
            PlaylistsEvent::SetTrackFilter(v) => {
                self.track_filter_input = v.clone();
                self.apply_track_filter();
                self.playlist_selected_index = 0;
                Vec::new()
            },
            PlaylistsEvent::SelectPlaylist(index) => self.select_playlist(*index),
            PlaylistsEvent::PlayPlaylist => vec![PlaylistsAction::ClearQueue, PlaylistsAction::AddPlaylistToQueue],
            PlaylistsEvent::AddPlaylistToQueue => {
                if self.playlist_tracks.len() == 0 {
                    self.status = lit("Playlist has no tracks to add.");
                    Vec::new()
                } else if self.shuffle_mode {
                    vec![PlaylistsAction::AddToQueue(clone_tracks(&self.playlist_tracks)), PlaylistsAction::ShuffleQueue]
                } else {
                    vec![PlaylistsAction::AddToQueue(clone_tracks(&self.playlist_tracks))]
                }
            },
            PlaylistsEvent::PlaylistTrackSelected(index) => {
                if *index >= self.filtered_track_indices.len() {
                    self.status = lit("Selected playlist track is unavailable.");
                    Vec::new()
                } else {
                    self.playlist_selected_index = *index;
                    let source = self.filtered_track_indices[*index];
                    let t = self.playlist_tracks[source].clone();
                    let one = vec![t];
                    assert(one@ =~= seq![m.tracks[m.filtered_indices[*index as int] as int]]);
                    vec![PlaylistsAction::AddToQueue(one)]
                }
            },
            PlaylistsEvent::AddTrackToPlaylist { track_id, playlist_id } => {
                self.status = lit("Adding track to playlist...");
                vec![PlaylistsAction::AddTrackToPlaylist { track_id: track_id.clone(), playlist_id: playlist_id.clone() }]
            },
            PlaylistsEvent::RemoveTrackFromPlaylist { track_id, playlist_id } => {
                self.status = lit("Removing track from playlist...");
                self.current_playlist_request_id = bump(self.current_playlist_request_id);
                vec![PlaylistsAction::CancelPlaylistTask,
                     PlaylistsAction::RemoveTrackFromPlaylist {
                         track_id: track_id.clone(),
                         playlist_id: playlist_id.clone(),
                         playlist_name: self.active_playlist_name.clone(),
                         request_id: self.current_playlist_request_id,
                     }]
            },
        };
        assert(self@ =~= playlists_step(m, e).0);
        assert(actions_view(actions@) =~= playlists_step(m, e).1);
        actions
    }
}

/// Tracks that answer an earlier request than the latest one are dropped:
/// nothing changes.
pub proof fn law_stale_tracks_ignored(m: PlaylistsModel, e: PlaylistsEvent)
    requires
        e matches PlaylistsEvent::PlaylistTracks { request_id, .. } && request_id != m.request_id,
    ensures
        playlists_step(m, e).0 == m,
        playlists_step(m, e).1.len() == 0,
{
}

/// Opening another playlist makes the answer to the request before it stale.
pub proof fn law_select_supersedes_pending(m: PlaylistsModel, index: usize, late: PlaylistsEvent)
    requires
        index < m.rows.len(),
        m.request_id < u64::MAX,
        !(is_active(m, m.rows[index as int].id@) && m.tracks.len() > 0),
        late matches PlaylistsEvent::PlaylistTracks { request_id, .. } && request_id == m.request_id,
    ensures
        ({
            let m1 = playlists_step(m, PlaylistsEvent::SelectPlaylist(index)).0;
            playlists_step(m1, late).0 == m1 && playlists_step(m1, late).1.len() == 0
        }),
{
}

/// The filtered list agrees with the track list: entry `k` is the track at
/// position `filtered_indices[k]`.
pub open spec fn filter_consistent(m: PlaylistsModel) -> bool {
    &&& m.filtered_tracks.len() == m.filtered_indices.len()
    &&& forall|k: int| 0 <= k < m.filtered_indices.len() ==> (#[trigger] m.filtered_indices[k]) < m.tracks.len()
    &&& forall|k: int| 0 <= k < m.filtered_indices.len() ==> #[trigger] m.filtered_tracks[k] == m.tracks[m.filtered_indices[k] as int]
}

/// Recomputing the filter always gives a consistent filtered list.
pub proof fn law_refilter_consistent(m: PlaylistsModel)
    requires
        m.tracks.len() <= usize::MAX,
    ensures
        filter_consistent(refiltered(m)),
{
    let q = crate::text::trim(m.filter_input);
    if q.len() > 0 {
        lemma_rank_below(track_scores(m.tracks, q));
    }
}

/// Every playlists event but the removal of the open playlist keeps the
/// filtered list consistent with the track list, so picking a filtered
/// track always finds it. (Removing the open playlist empties both lists but
/// leaves the filtered positions behind.)
pub proof fn law_filter_stays_consistent(m: PlaylistsModel, e: PlaylistsEvent)
    requires
        filter_consistent(m),
        m.tracks.len() <= usize::MAX,
        e matches PlaylistsEvent::PlaylistTracks { tracks, .. } ==> tracks@.len() <= usize::MAX,
        !(e is PlaylistDeleted),
    ensures
        filter_consistent(playlists_step(m, e).0),
{
    match e {
        PlaylistsEvent::SetTrackFilter(v) => {
            law_refilter_consistent(PlaylistsModel { filter_input: v@, ..m });
        },
        PlaylistsEvent::PlaylistTracks { request_id, id, name, tracks, track_count, total_duration_ms } => {
            if request_id == m.request_id {
                let m0 = PlaylistsModel {
                    active_id: Some(id@),
                    active_name: name@,
                    active_count: track_count,
                    active_duration_ms: total_duration_ms,
                    tracks: tracks@,
                    filter_input: Seq::empty(),
                    selected_index: 0,
                    ..m
                };
                law_refilter_consistent(m0);
            }
        },
        _ => {},
    }
}

/// Picking row `k` of the shown (filtered) track list queues exactly the
/// track shown at that row, and nothing else, and marks that row selected;
/// a row past the end of the shown list queues nothing.
pub proof fn law_pick_queues_shown_track(m: PlaylistsModel, k: usize)
    requires
        filter_consistent(m),
    ensures
        k < m.filtered_tracks.len() ==> playlists_step(m, PlaylistsEvent::PlaylistTrackSelected(k)).1
            == seq![PlaylistsActionView::AddToQueue(seq![m.filtered_tracks[k as int]])],
        k < m.filtered_tracks.len() ==> playlists_step(m, PlaylistsEvent::PlaylistTrackSelected(k)).0.selected_index == k,
        k >= m.filtered_tracks.len() ==> playlists_step(m, PlaylistsEvent::PlaylistTrackSelected(k)).1.len() == 0,
        k >= m.filtered_tracks.len() ==> playlists_step(m, PlaylistsEvent::PlaylistTrackSelected(k)).0.tracks == m.tracks,
{
}

/// Filtering and then picking a row queues the track the filter shows at
/// that row: after `SetTrackFilter(v)`, row `k` of the new list is what is
/// queued.
pub proof fn law_filter_then_pick(m: PlaylistsModel, v: String, k: usize)
    requires
        m.tracks.len() <= usize::MAX,
    ensures
        ({
            let m1 = playlists_step(m, PlaylistsEvent::SetTrackFilter(v)).0;
            k < m1.filtered_tracks.len() ==> playlists_step(m1, PlaylistsEvent::PlaylistTrackSelected(k)).1
                == seq![PlaylistsActionView::AddToQueue(seq![m1.filtered_tracks[k as int]])]
        }),
{
    law_refilter_consistent(PlaylistsModel { filter_input: v@, ..m });
}

/// Adding the open playlist to the queue queues all its tracks, in order,
/// and then asks for a shuffle exactly when shuffle mode is on; it changes
/// nothing else. An empty playlist queues nothing.
pub proof fn law_add_playlist_follows_shuffle_mode(m: PlaylistsModel)
    ensures
        ({
            let (m1, a) = playlists_step(m, PlaylistsEvent::AddPlaylistToQueue);
            &&& m.tracks.len() > 0 ==> m1 == m
            &&& m.tracks.len() > 0 ==> a.len() == (if m.shuffle_mode { 2int } else { 1int })
            &&& m.tracks.len() > 0 ==> a[0] == PlaylistsActionView::AddToQueue(m.tracks)
            &&& (m.tracks.len() > 0 && m.shuffle_mode) ==> a[1] == PlaylistsActionView::ShuffleQueue
            &&& !m.shuffle_mode ==> !a.contains(PlaylistsActionView::ShuffleQueue)
            &&& m.tracks.len() == 0 ==> a.len() == 0
        }),
{
    let a = playlists_step(m, PlaylistsEvent::AddPlaylistToQueue).1;
    if !m.shuffle_mode && m.tracks.len() > 0 {
        assert(a.len() == 1);
        if a.contains(PlaylistsActionView::ShuffleQueue) {
            let i = choose|i: int| 0 <= i < a.len() && a[i] == PlaylistsActionView::ShuffleQueue;
            assert(i == 0);
        }
    }
}

} // verus!
