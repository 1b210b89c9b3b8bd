//! The queue and the playback bar: which track plays, what comes next, what
//! was played, the volume and the scrub position.
use vstd::prelude::*;
use vstd::string::StringExecFns;

use rand::seq::SliceRandom;

use crate::messages::{Album, Track, clone_opt_string, opt_view};
use crate::text::{concat3, decimal, u64_to_decimal};
use crate::ui::events::PlaybackEvent;
use crate::ui::model_data::CenterPage;

verus! {

/// The volume the local player starts with when nothing was saved.
pub const DEFAULT_LOCAL_VOLUME_PERCENT: u8 = 80;

/// Full scale of the scrub position, in basis points (100%).
pub const SCRUB_FULL_SCALE: u32 = 10000;

/// Work that the shell carries out after the state changed.
#[derive(Debug)]
pub enum PlaybackAction {
    /// Handle this playback event next.
    Emit(PlaybackEvent),
    NavigateTo(CenterPage),
    FetchAlbumFromTrack(String),
    FetchAlbumTracks(Album),
    LoadArtwork(String),
    PlayLocalTrack(Track),
    StopLocal,
    /// Stop playback on the active Spotify device as well.
    StopRemote,
    PauseLocal,
    ResumeLocal,
    SeekLocal(u32),
    SetLocalVolume(u8),
    SaveLocalVolume(u8),
    /// Persist the queue and the recently played list as they now stand.
    SaveQueue,
    PlayArtworkFade,
}

/// What the handler reads from the outside world: the clock and the saved volume.
#[derive(Clone, Copy, Debug)]
pub struct PlaybackEnv {
    pub now_ms: u64,
    pub persisted_volume_percent: u8,
}

/// A saved queue, as restored at startup.
#[derive(Debug)]
pub struct QueueSnapshot {
    pub queue_tracks: Vec<Track>,
    pub recently_played: Vec<Track>,
}

/// The playback part of the interface.
#[derive(Debug)]
pub struct PlaybackState {
    pub status: String,
    pub playback_ready: bool,
    pub playback_is_playing: bool,
    pub queue_tracks: Vec<Track>,
    pub playback_scrub_bp: u32,
    pub queue_current_index: Option<usize>,
    pub playback_volume: u8,
    pub playback_is_muted: bool,
    pub pre_mute_volume: u8,
    pub recently_played: Vec<Track>,
    pub playback_duration_ms: u32,
    pub playback_track_name: String,
    pub playback_track_artist: String,
    pub playback_track_id: Option<String>,
    pub playback_track_image_key: Option<String>,
    pub playback_track_image_url: Option<String>,
    pub playback_overlay_image_key: Option<String>,
    pub search_album_rows: Vec<Album>,
    pub album_tracks: Vec<Track>,
    pub album_image_key: Option<String>,
    pub last_scrub_user_input_at: Option<u64>,
    pub last_local_track_end_handled_at: Option<u64>,
    pub autoplay_on_queue_add: bool,
    pub restore_queue_on_startup: bool,
}

/// The mathematical value of a `PlaybackState`.
#[verifier::ext_equal]
pub struct PlaybackModel {
    pub status: Seq<char>,
    pub ready: bool,
    pub is_playing: bool,
    pub queue: Seq<Track>,
    pub scrub_bp: u32,
    pub current_index: Option<usize>,
    pub volume: u8,
    pub is_muted: bool,
    pub pre_mute_volume: u8,
    pub recently_played: Seq<Track>,
    pub duration_ms: u32,
    pub track_name: Seq<char>,
    pub track_artist: Seq<char>,
    pub track_id: Option<Seq<char>>,
    pub track_image_key: Option<Seq<char>>,
    pub track_image_url: Option<Seq<char>>,
    pub overlay_image_key: Option<Seq<char>>,
    pub search_album_rows: Seq<Album>,
    pub album_tracks: Seq<Track>,
    pub album_image_key: Option<Seq<char>>,
    pub last_scrub_at: Option<u64>,
    pub last_track_end_at: Option<u64>,
    pub autoplay: bool,
    pub restore_queue: bool,
}

impl View for PlaybackState {
    type V = PlaybackModel;

    open spec fn view(&self) -> PlaybackModel {
        PlaybackModel {
            status: self.status@,
            ready: self.playback_ready,
            is_playing: self.playback_is_playing,
            queue: self.queue_tracks@,
            scrub_bp: self.playback_scrub_bp,
            current_index: self.queue_current_index,
            volume: self.playback_volume,
            is_muted: self.playback_is_muted,
            pre_mute_volume: self.pre_mute_volume,
            recently_played: self.recently_played@,
            duration_ms: self.playback_duration_ms,
            track_name: self.playback_track_name@,
            track_artist: self.playback_track_artist@,
            track_id: opt_view(self.playback_track_id),
            track_image_key: opt_view(self.playback_track_image_key),
            track_image_url: opt_view(self.playback_track_image_url),
            overlay_image_key: opt_view(self.playback_overlay_image_key),
            search_album_rows: self.search_album_rows@,
            album_tracks: self.album_tracks@,
            album_image_key: opt_view(self.album_image_key),
            last_scrub_at: self.last_scrub_user_input_at,
            last_track_end_at: self.last_local_track_end_handled_at,
            autoplay: self.autoplay_on_queue_add,
            restore_queue: self.restore_queue_on_startup,
        }
    }
}

// ------------------------------------------------------------------ specs
/// The queue index, when there is one, points into the queue.
pub open spec fn index_in_queue(m: PlaybackModel) -> bool {
    m.current_index matches Some(i) ==> i < m.queue.len()
}

/// The playback position, in milliseconds, that a scrub value stands for.
pub open spec fn scrub_position_ms(bp: u32, duration_ms: u32) -> int {
    (bp * duration_ms + 5000) / 10000
}

/// The scrub value that a reported position stands for.
pub open spec fn progress_scrub_bp(position_ms: u32, duration_ms: u32) -> u32 {
    let p = if position_ms <= duration_ms { position_ms } else { duration_ms };
    (p * 10000 / (duration_ms as int)) as u32
}

/// Whether the local track is within 0.9 s of its end.
pub open spec fn near_end(m: PlaybackModel) -> bool {
    m.duration_ms != 0 && scrub_position_ms(m.scrub_bp, m.duration_ms)
        >= (if m.duration_ms >= 900 { m.duration_ms - 900 } else { 0 })
}

/// Whether starting playback should (re)start the queue rather than resume.
pub open spec fn should_start_from_queue(m: PlaybackModel) -> bool {
    m.queue.len() > 0 && (m.current_index is None || near_end(m))
}

/// Whether an event at `now` falls within 0.7 s of the event at `at`.
pub open spec fn within_debounce(at: Option<u64>, now: u64) -> bool {
    match at {
        Some(t) => (if now >= t { now - t } else { 0 }) < 700,
        None => false,
    }
}

/// The artwork work for a newly current track: its cached image first, then a
/// load of its best URL, or a clear when it has neither.
pub open spec fn artwork_actions(t: Track) -> Seq<PlaybackAction> {
    let keyed: Seq<PlaybackAction> = match t.album_image_key {
        Some(k) => seq![PlaybackAction::Emit(PlaybackEvent::ArtworkLoaded { image_key: Some(k) })],
        None => Seq::empty(),
    };
    let url = match t.album_playback_image_url {
        Some(u) => Some(u),
        None => t.album_image_url,
    };
    match url {
        Some(u) => keyed.push(PlaybackAction::LoadArtwork(u)),
        None => if t.album_image_key is None {
            keyed.push(PlaybackAction::Emit(PlaybackEvent::ArtworkLoaded { image_key: None }))
        } else {
            keyed
        },
    }
}

/// The model with `t` shown as the current track, at its start.
pub open spec fn show_track(m: PlaybackModel, t: Track) -> PlaybackModel {
    PlaybackModel {
        duration_ms: t.duration_ms,
        scrub_bp: 0,
        track_name: t.name@,
        track_artist: t.artist@,
        track_id: Some(t.id@),
        track_image_url: opt_view(t.album_image_url),
        ..m
    }
}

/// The first album of `rows` whose image key is `key`.
pub open spec fn first_album_with_key(rows: Seq<Album>, key: Seq<char>) -> Option<Album>
    decreases rows.len(),
{
    if rows.len() == 0 {
        None
    } else if opt_view(rows[0].image_key) == Some(key) {
        Some(rows[0])
    } else {
        first_album_with_key(rows.drop_first(), key)
    }
}

/// The first album of `rows` whose image URL is `url`.
pub open spec fn first_album_with_url(rows: Seq<Album>, url: Seq<char>) -> Option<Album>
    decreases rows.len(),
{
    if rows.len() == 0 {
        None
    } else if opt_view(rows[0].image_url) == Some(url) {
        Some(rows[0])
    } else {
        first_album_with_url(rows.drop_first(), url)
    }
}

/// The album that a playback bar click refers to: by image key, else by URL.
pub open spec fn album_for_artwork(m: PlaybackModel, key: Option<String>, url: Option<String>) -> Option<Album> {
    let by_key = match key {
        Some(k) => first_album_with_key(m.search_album_rows, k@),
        None => None,
    };
    let by_url = match url {
        Some(u) => first_album_with_url(m.search_album_rows, u@),
        None => None,
    };
    match by_key {
        Some(a) => Some(a),
        None => by_url,
    }
}

/// Starting playback from the queue.
pub open spec fn step_play(m: PlaybackModel) -> (PlaybackModel, Seq<PlaybackAction>) {
    if m.queue.len() > 0 {
        let wanted: int = match m.current_index { Some(i) => i as int, None => 0 };
        let start: int = if wanted <= m.queue.len() - 1 { wanted } else { m.queue.len() - 1 };
        let t = m.queue[start];
        let m1 = PlaybackModel {
            current_index: Some(start as usize),
            status: "Starting playback from queue on local device..."@,
            is_playing: true,
            ..show_track(m, t)
        };
        (m1, artwork_actions(t).push(PlaybackAction::PlayLocalTrack(t)))
    } else {
        (m, Seq::empty())
    }
}

/// Playing the queue entry at `index`; everything before it leaves the queue
/// and the entry that was playing goes to the recently played list.
pub open spec fn step_select(m: PlaybackModel, index: usize) -> (PlaybackModel, Seq<PlaybackAction>) {
    let m0 = if index > 0 {
        PlaybackModel {
            recently_played: m.recently_played.push(m.queue[0]),
            queue: m.queue.skip(index as int),
            ..m
        }
    } else {
        m
    };
    let t = m0.queue[0];
    let m1 = PlaybackModel {
        current_index: Some(0),
        status: "Playing selected queue song on local device..."@,
        is_playing: true,
        ..show_track(m0, t)
    };
    (m1, artwork_actions(t).push(PlaybackAction::SaveQueue).push(PlaybackAction::PlayLocalTrack(t)))
}

/// Leaving the front track (skipped or finished) for the recently played list.
pub open spec fn step_advance(m: PlaybackModel) -> (PlaybackModel, Seq<PlaybackAction>) {
    let m0 = if m.queue.len() > 0 {
        PlaybackModel {
            recently_played: m.recently_played.push(m.queue[0]),
            queue: m.queue.drop_first(),
            ..m
        }
    } else {
        m
    };
    if m0.queue.len() > 0 {
        (PlaybackModel { current_index: Some(0), ..m0 },
         seq![PlaybackAction::SaveQueue, PlaybackAction::Emit(PlaybackEvent::Play)])
    } else {
        (PlaybackModel {
            current_index: None,
            is_playing: false,
            status: "Reached end of queue."@,
            ..m0
        }, seq![PlaybackAction::SaveQueue])
    }
}

/// The effect of every playback event but `ShuffleQueue` (whose order is random).
pub open spec fn step(m: PlaybackModel, e: PlaybackEvent, env: PlaybackEnv) -> (PlaybackModel, Seq<PlaybackAction>) {
    match e {
        PlaybackEvent::ClearQueue => (PlaybackModel {
            queue: Seq::empty(),
            current_index: None,
            duration_ms: 0,
            scrub_bp: 0,
            track_name: Seq::empty(),
            track_artist: Seq::empty(),
            track_id: None,
            track_image_key: None,
            track_image_url: None,
            overlay_image_key: None,
            ..m
        }, seq![PlaybackAction::SaveQueue, PlaybackAction::Emit(PlaybackEvent::Stop)]),
        PlaybackEvent::ClearRecentlyPlayed => (PlaybackModel { recently_played: Seq::empty(), ..m }, Seq::empty()),
        PlaybackEvent::ShuffleQueue => (m, Seq::empty()),
        PlaybackEvent::AddToQueue(tracks) => {
            let first: Seq<PlaybackAction> = if m.queue.len() == 0 && m.autoplay {
                seq![PlaybackAction::Emit(PlaybackEvent::Play)]
            } else {
                Seq::empty()
            };
            (PlaybackModel {
                queue: m.queue + tracks@,
                status: "Added "@ + decimal(tracks@.len()) + " tracks to the queue."@,
                ..m
            }, first.push(PlaybackAction::SaveQueue))
        },
        PlaybackEvent::OpenAlbumFromPlayback { track_id, image_key, image_url } => {
            match track_id {
                Some(id) => (PlaybackModel { status: "Loading album from current track..."@, ..m },
                    seq![PlaybackAction::NavigateTo(CenterPage::AlbumTracks), PlaybackAction::FetchAlbumFromTrack(id)]),
                None => if image_key is Some && opt_view(image_key) == m.album_image_key && m.album_tracks.len() > 0 {
                    (m, seq![PlaybackAction::NavigateTo(CenterPage::AlbumTracks)])
                } else {
                    match album_for_artwork(m, image_key, image_url) {
                        Some(a) => (PlaybackModel { status: "Loading tracks for '"@ + a.name@ + "'..."@, ..m },
                            seq![PlaybackAction::NavigateTo(CenterPage::AlbumTracks), PlaybackAction::FetchAlbumTracks(a)]),
                        None => (PlaybackModel { status: "Album not found in current search results."@, ..m }, Seq::empty()),
                    }
                },
            }
        },
        PlaybackEvent::SelectQueueTrack(index) => step_select(m, index),
        PlaybackEvent::Previous => {
            if scrub_position_ms(m.scrub_bp, m.duration_ms) > 3000 {
                (PlaybackModel { status: "Restarting current track..."@, ..m }, seq![PlaybackAction::Emit(PlaybackEvent::Play)])
            } else if m.recently_played.len() > 0 {
                (PlaybackModel {
                    queue: seq![m.recently_played.last()] + m.queue,
                    recently_played: m.recently_played.drop_last(),
                    current_index: Some(0),
                    status: "Playing previous track from recently played..."@,
                    ..m
                }, seq![PlaybackAction::Emit(PlaybackEvent::Play)])
            } else if m.queue.len() > 0 {
                (PlaybackModel { status: "Replaying from start of queue..."@, ..m }, seq![PlaybackAction::Emit(PlaybackEvent::Play)])
            } else {
                (PlaybackModel { status: "Nothing to go back to."@, ..m }, Seq::empty())
            }
        },
        PlaybackEvent::Toggle => {
            if m.is_playing {
                (m, seq![PlaybackAction::Emit(PlaybackEvent::Pause)])
            } else if should_start_from_queue(m) {
                (m, seq![PlaybackAction::Emit(PlaybackEvent::Play)])
            } else if m.scrub_bp > 0 {
                (m, seq![PlaybackAction::Emit(PlaybackEvent::Resume)])
            } else {
                (m, seq![PlaybackAction::Emit(PlaybackEvent::Play)])
            }
        },
        PlaybackEvent::Stop => (PlaybackModel {
            is_playing: false,
            scrub_bp: 0,
            track_name: Seq::empty(),
            track_id: None,
            track_image_url: None,
            ..m
        }, seq![PlaybackAction::StopLocal, PlaybackAction::StopRemote]),
        PlaybackEvent::Resume => {
            if should_start_from_queue(m) {
                (PlaybackModel { status: "Starting playback from queue on local device..."@, ..m },
                    seq![PlaybackAction::Emit(PlaybackEvent::Play)])
            } else {
                (PlaybackModel { status: "Resuming playback on local device..."@, is_playing: true, ..m },
                    seq![PlaybackAction::ResumeLocal])
            }
        },
        PlaybackEvent::Play => step_play(m),
        PlaybackEvent::Pause => (PlaybackModel {
            status: "Sending pause command to local device..."@,
            is_playing: false,
            ..m
        }, seq![PlaybackAction::PauseLocal]),
        PlaybackEvent::Next => {
            if m.queue.len() <= 1 {
                (PlaybackModel { status: "Queue is empty."@, ..m }, Seq::empty())
            } else {
                step_advance(m)
            }
        },
        PlaybackEvent::ToggleMute => {
            if m.is_muted {
                (PlaybackModel { is_muted: false, ..m }, seq![PlaybackAction::Emit(PlaybackEvent::SetVolume(m.pre_mute_volume))])
            } else {
                (PlaybackModel { pre_mute_volume: m.volume, is_muted: true, ..m },
                    seq![PlaybackAction::Emit(PlaybackEvent::SetVolume(0))])
            }
        },
        PlaybackEvent::SetVolume(v) => {
            let clamped: u8 = if v <= 100 { v } else { 100 };
            (PlaybackModel { volume: clamped, ..m }, seq![PlaybackAction::SetLocalVolume(clamped)])
        },
        PlaybackEvent::SetScrub(bp) => {
            let clamped: u32 = if bp <= 10000 { bp } else { 10000 };
            let m1 = PlaybackModel { scrub_bp: clamped, last_scrub_at: Some(env.now_ms), ..m };
            if m.duration_ms == 0 {
                (m1, Seq::empty())
            } else {
                (m1, seq![PlaybackAction::SeekLocal(scrub_position_ms(clamped, m.duration_ms) as u32)])
            }
        },
        PlaybackEvent::SessionReady => (PlaybackModel {
            ready: true,
            volume: env.persisted_volume_percent,
            pre_mute_volume: env.persisted_volume_percent,
            is_muted: false,
            status: "Playback session is ready (OAuth token-based)."@,
            ..m
        }, Seq::empty()),
        PlaybackEvent::LocalTrackEnded => {
            if within_debounce(m.last_track_end_at, env.now_ms) {
                (m, Seq::empty())
            } else {
                step_advance(PlaybackModel { last_track_end_at: Some(env.now_ms), ..m })
            }
        },
        PlaybackEvent::Progress { position_ms, duration_ms, is_playing } => {
            let m1 = PlaybackModel { is_playing: is_playing, duration_ms: duration_ms, ..m };
            if !within_debounce(m.last_scrub_at, env.now_ms) && duration_ms > 0 {
                (PlaybackModel { scrub_bp: progress_scrub_bp(position_ms, duration_ms), ..m1 }, Seq::empty())
            } else {
                (m1, Seq::empty())
            }
        },
        PlaybackEvent::ArtworkLoaded { image_key } => {
            if m.track_image_key != opt_view(image_key) {
                (PlaybackModel {
                    overlay_image_key: m.track_image_key,
                    track_image_key: opt_view(image_key),
                    ..m
                }, seq![PlaybackAction::PlayArtworkFade])
            } else {
                (m, Seq::empty())
            }
        },
    }
}

/// The model after a saved queue and recently played list are taken in.
pub open spec fn restored_from(m: PlaybackModel, queue: Seq<Track>, recent: Seq<Track>) -> PlaybackModel {
    PlaybackModel {
        queue: queue,
        recently_played: recent,
        status: "Queue restored from last session."@,
        ..m
    }
}

/// Whether restoring takes this snapshot.
pub open spec fn takes_snapshot(m: PlaybackModel, snapshot: Option<QueueSnapshot>) -> bool {
    m.restore_queue && snapshot is Some && snapshot->0.queue_tracks@.len() > 0
}

/// The saved volume the local player should use (at most 100%).
pub fn persisted_local_volume_percent(saved: Option<u8>) -> (v: u8)
    ensures
        v == (match saved { Some(s) => if s <= 100 { s } else { 100 }, None => DEFAULT_LOCAL_VOLUME_PERCENT }),
{
    match saved {
        Some(s) => if s <= 100 { s } else { 100 },
        None => DEFAULT_LOCAL_VOLUME_PERCENT,
    }
}

fn lit(s: &str) -> (out: String)
    ensures
        out@ == s@,
{
    String::from_str(s)
}

fn scrub_position(bp: u32, duration_ms: u32) -> (p: u64)
    ensures
        p == scrub_position_ms(bp, duration_ms),
{
    assert(bp as int * duration_ms as int <= 0xffff_ffff * 0xffff_ffff) by (nonlinear_arith)
        requires bp <= 0xffff_ffff, duration_ms <= 0xffff_ffff;
    let product: u64 = (bp as u64) * (duration_ms as u64);
    (product + 5000) / 10000
}

fn seek_target(bp: u32, duration_ms: u32) -> (p: u32)
    requires
        bp <= 10000,
    ensures
        p == scrub_position_ms(bp, duration_ms),
{
    let r = scrub_position(bp, duration_ms);
    assert(scrub_position_ms(bp, duration_ms) <= duration_ms) by (nonlinear_arith)
        requires bp <= 10000;
    r as u32
}

impl PlaybackState {
    /// A fresh state: empty queue, nothing playing, at the given volume.
    pub fn new(initial_volume_percent: u8) -> (s: Self)
        ensures
            s@.queue.len() == 0,
            s@.recently_played.len() == 0,
            s@.current_index is None,
            s@.volume == initial_volume_percent,
            s@.pre_mute_volume == initial_volume_percent,
            !s@.ready,
            !s@.is_playing,
            !s@.is_muted,
            s@.scrub_bp == 0,
            s@.duration_ms == 0,
            s@.autoplay,
            !s@.restore_queue,
            index_in_queue(s@),
    {
        PlaybackState {
            status: String::new(),
            playback_ready: false,
            playback_is_playing: false,
            queue_tracks: Vec::new(),
            playback_scrub_bp: 0,
            queue_current_index: None,
            playback_volume: initial_volume_percent,
            playback_is_muted: false,
            pre_mute_volume: initial_volume_percent,
            recently_played: Vec::new(),
            playback_duration_ms: 0,
            playback_track_name: String::new(),
            playback_track_artist: String::new(),
            playback_track_id: None,
            playback_track_image_key: None,
            playback_track_image_url: None,
            playback_overlay_image_key: None,
            search_album_rows: Vec::new(),
            album_tracks: Vec::new(),
            album_image_key: None,
            last_scrub_user_input_at: None,
            last_local_track_end_handled_at: None,
            autoplay_on_queue_add: true,
            restore_queue_on_startup: false,
        }
    }

    /// Whether the local track is within 0.9 s of its end.
    pub fn local_track_near_end(&self) -> (b: bool)
        ensures
            b == near_end(self@),
    {
        let duration_ms = self.playback_duration_ms;
        if duration_ms == 0 {
            return false;
        }
        let position_ms = scrub_position(self.playback_scrub_bp, duration_ms);
        position_ms >= duration_ms.saturating_sub(900) as u64
    }

    /// Whether starting playback should (re)start the queue rather than resume.
    pub fn local_should_start_from_queue(&self) -> (b: bool)
        ensures
            b == should_start_from_queue(self@),
    {
        if self.queue_tracks.len() == 0 {
            return false;
        }
        self.queue_current_index.is_none() || self.local_track_near_end()
    }

    /// Takes the saved queue when restoring at startup is on and it is not empty.
    pub fn restore_queue(&mut self, snapshot: Option<QueueSnapshot>)
        ensures
            takes_snapshot(old(self)@, snapshot)
                ==> final(self)@ == restored_from(old(self)@, snapshot->0.queue_tracks@, snapshot->0.recently_played@),
            !takes_snapshot(old(self)@, snapshot)
                ==> final(self)@ == old(self)@,
    {
        if self.restore_queue_on_startup {
            if let Some(s) = snapshot {
                if s.queue_tracks.len() > 0 {
                    self.queue_tracks = s.queue_tracks;
                    self.recently_played = s.recently_played;
                    self.status = lit("Queue restored from last session.");
                }
            }
        }
    }

    fn show_track(&mut self, t: &Track)
        ensures
            final(self)@ == show_track(old(self)@, *t),
    {
        self.playback_duration_ms = t.duration_ms;
        self.playback_scrub_bp = 0;
        self.playback_track_name = t.name.clone();
        self.playback_track_artist = t.artist.clone();
        self.playback_track_id = Some(t.id.clone());
        self.playback_track_image_url = clone_opt_string(&t.album_image_url);
    }

    fn artwork_actions(t: &Track, actions: &mut Vec<PlaybackAction>)
        ensures
            final(actions)@ == old(actions)@ + artwork_actions(*t),
    {
        let ghost start = actions@;
        if let Some(k) = &t.album_image_key {
            actions.push(PlaybackAction::Emit(PlaybackEvent::ArtworkLoaded { image_key: Some(k.clone()) }));
        }
        let url = match &t.album_playback_image_url {
            Some(u) => Some(u.clone()),
            None => clone_opt_string(&t.album_image_url),
        };
        match url {
            Some(u) => actions.push(PlaybackAction::LoadArtwork(u)),
            None => {
                if t.album_image_key.is_none() {
                    actions.push(PlaybackAction::Emit(PlaybackEvent::ArtworkLoaded { image_key: None }));
                }
            },
        }
        assert(actions@ =~= start + artwork_actions(*t));
    }

    fn play(&mut self) -> (actions: Vec<PlaybackAction>)
        ensures
            final(self)@ == step_play(old(self)@).0,
            actions@ == step_play(old(self)@).1,
    {
        let mut actions: Vec<PlaybackAction> = Vec::new();
        let len = self.queue_tracks.len();
        if len > 0 {
            let wanted = match self.queue_current_index { Some(i) => i, None => 0 };
            let start = if wanted <= len - 1 { wanted } else { len - 1 };
            let t = self.queue_tracks[start].clone();
            self.queue_current_index = Some(start);
            self.show_track(&t);
            Self::artwork_actions(&t, &mut actions);
            self.status = lit("Starting playback from queue on local device...");
            actions.push(PlaybackAction::PlayLocalTrack(t));
            self.playback_is_playing = true;
        }
        actions
    }

    fn select_queue_track(&mut self, index: usize) -> (actions: Vec<PlaybackAction>)
        requires
            index < old(self).queue_tracks@.len(),
        ensures
            final(self)@ == step_select(old(self)@, index).0,
            actions@ == step_select(old(self)@, index).1,
    {
        let mut actions: Vec<PlaybackAction> = Vec::new();
        if index > 0 {
            let current = self.queue_tracks[0].clone();
            self.recently_played.push(current);
            let mut rest: Vec<Track> = Vec::new();
            let mut i = index;
            while i < self.queue_tracks.len()
                invariant
                    index <= i <= self.queue_tracks.len(),
                    rest@ == self.queue_tracks@.subrange(index as int, i as int),
                decreases self.queue_tracks.len() - i,
            {
                rest.push(self.queue_tracks[i].clone());
                i += 1;
                assert(rest@ =~= self.queue_tracks@.subrange(index as int, i as int));
            }
            self.queue_tracks = rest;
        }
        let t = self.queue_tracks[0].clone();
        self.queue_current_index = Some(0);
        self.show_track(&t);
        Self::artwork_actions(&t, &mut actions);
        actions.push(PlaybackAction::SaveQueue);
        self.status = lit("Playing selected queue song on local device...");
        actions.push(PlaybackAction::PlayLocalTrack(t));
        self.playback_is_playing = true;
        actions
    }

    fn advance(&mut self) -> (actions: Vec<PlaybackAction>)
        ensures
            final(self)@ == step_advance(old(self)@).0,
            actions@ == step_advance(old(self)@).1,
    {
        if self.queue_tracks.len() > 0 {
            let front = self.queue_tracks.remove(0);
            self.recently_played.push(front);
        }
        if self.queue_tracks.len() > 0 {
            self.queue_current_index = Some(0);
            vec![PlaybackAction::SaveQueue, PlaybackAction::Emit(PlaybackEvent::Play)]
        } else {
            self.queue_current_index = None;
            self.playback_is_playing = false;
            self.status = lit("Reached end of queue.");
            vec![PlaybackAction::SaveQueue]
        }
    }

    fn find_album(&self, key: &Option<String>, url: &Option<String>) -> (a: Option<Album>)
        ensures
            a == album_for_artwork(self@, *key, *url),
    {
        let by_key = match key {
            Some(k) => find_by_key(&self.search_album_rows, k),
            None => None,
        };
        if by_key.is_some() {
            return by_key;
        }
        match url {
            Some(u) => find_by_url(&self.search_album_rows, u),
            None => None,
        }
    }

    /// Puts the queue in the order `order` gives. With a current track, it is
    /// pinned at the front and `order` arranges the others; without one,
    /// `order` arranges the whole queue. Fewer than two tracks: nothing moves.
    pub fn shuffle_queue_with(&mut self, order: &Vec<usize>)
        requires
            old(self).queue_tracks@.len() >= 2 ==> is_permutation_of_range(
                order@,
                if old(self).queue_current_index is Some { (old(self).queue_tracks@.len() - 1) as nat } else { old(self).queue_tracks@.len() as nat },
            ),
        ensures
            old(self)@.queue.len() < 2 ==> final(self)@ == (PlaybackModel {
                status: "Need at least two tracks in queue to shuffle."@,
                ..old(self)@
            }),
            old(self)@.queue.len() >= 2 ==> final(self)@ == (PlaybackModel {
                queue: shuffled_queue(old(self)@.queue, old(self)@.current_index, order@),
                current_index: if old(self)@.current_index is Some { Some(0usize) } else { None },
                status: "Queue shuffled."@,
                ..old(self)@
            }),
    {
        let len = self.queue_tracks.len();
        if len < 2 {
            self.status = lit("Need at least two tracks in queue to shuffle.");
            return;
        }
        let ghost q = self.queue_tracks@;
        let mut rest: Vec<Track> = Vec::new();
        let mut out: Vec<Track> = Vec::new();
        let pinned: Option<usize> = match self.queue_current_index {
            Some(i) => Some(if i <= len - 1 { i } else { len - 1 }),
            None => None,
        };
        let mut k: usize = 0;
        while k < len
            invariant
                len == self.queue_tracks@.len(),
                q == self.queue_tracks@,
                k <= len,
                rest@ == pool(q, pinned).take(rest@.len() as int),
                rest@.len() == (match pinned { Some(p) => if k <= p { k as int } else { k - 1 }, None => k as int }),
                pinned matches Some(p) ==> p < len,
            decreases len - k,
        {
            if pinned != Some(k) {
                rest.push(self.queue_tracks[k].clone());
                proof {
                    assert(rest@ =~= pool(q, pinned).take(rest@.len() as int));
                }
            }
            k += 1;
        }
        assert(rest@ =~= pool(q, pinned));
        if let Some(p) = pinned {
            out.push(self.queue_tracks[p].clone());
        }
        let ghost head = out@;
        let mut j: usize = 0;
        while j < order.len()
            invariant
                j <= order.len(),
                rest@ == pool(q, pinned),
                order@.len() == rest@.len(),
                forall|x: int| 0 <= x < order@.len() ==> (#[trigger] order@[x]) < rest@.len(),
                out@ == head + Seq::new(j as nat, |x: int| rest@[order@[x] as int]),
            decreases order.len() - j,
        {
            out.push(rest[order[j]].clone());
            j += 1;
            assert(out@ =~= head + Seq::new(j as nat, |x: int| rest@[order@[x] as int]));
        }
        assert(out@ =~= shuffled_queue(q, self.queue_current_index, order@));
        self.queue_tracks = out;
        self.queue_current_index = if pinned.is_some() { Some(0) } else { None };
        self.status = lit("Queue shuffled.");
    }

    fn on_clear_queue(&mut self, event: &PlaybackEvent, env: &PlaybackEnv) -> (actions: Vec<PlaybackAction>)
        requires
            event is ClearQueue,
        ensures
            final(self)@ == step(old(self)@, *event, *env).0,
            actions@ == step(old(self)@, *event, *env).1,
    {
        match event {
            PlaybackEvent::ClearQueue => {
                self.queue_tracks = Vec::new();
                self.queue_current_index = None;
                self.playback_duration_ms = 0;
                self.playback_scrub_bp = 0;
                self.playback_track_name = String::new();
                self.playback_track_artist = String::new();
                self.playback_track_id = None;
                self.playback_track_image_key = None;
                self.playback_track_image_url = None;
                self.playback_overlay_image_key = None;
                assert(self@ =~= step(old(self)@, *event, *env).0);
                vec![PlaybackAction::SaveQueue, PlaybackAction::Emit(PlaybackEvent::Stop)]
            },
            _ => Vec::new(),
        }
    }

    fn on_clear_recently_played(&mut self, event: &PlaybackEvent, env: &PlaybackEnv) -> (actions: Vec<PlaybackAction>)
        requires
            event is ClearRecentlyPlayed,
        ensures
            final(self)@ == step(old(self)@, *event, *env).0,
            actions@ == step(old(self)@, *event, *env).1,
    {
        match event {
            PlaybackEvent::ClearRecentlyPlayed => {
                self.recently_played = Vec::new();
                assert(self@ =~= step(old(self)@, *event, *env).0);
                Vec::new()
            },
            _ => Vec::new(),
        }
    }

    fn on_shuffle_queue(&mut self, event: &PlaybackEvent, env: &PlaybackEnv) -> (actions: Vec<PlaybackAction>)
        requires
            event is ShuffleQueue,
        ensures
            shuffled(old(self)@, final(self)@),
            actions@.len() == 0,
    {
        match event {
            PlaybackEvent::ShuffleQueue => {
                let n = self.queue_tracks.len();
                let size = if self.queue_current_index.is_some() && n >= 1 { n - 1 } else { n };
                let order = random_order(size);
                self.shuffle_queue_with(&order);
                Vec::new()
            },
            _ => Vec::new(),
        }
    }

    fn on_add_to_queue(&mut self, event: &PlaybackEvent, env: &PlaybackEnv) -> (actions: Vec<PlaybackAction>)
        requires
            event is AddToQueue,
        ensures
            final(self)@ == step(old(self)@, *event, *env).0,
            actions@ == step(old(self)@, *event, *env).1,
    {
        match event {
            PlaybackEvent::AddToQueue(tracks) => {
                let was_empty = self.queue_tracks.len() == 0;
                let mut i: usize = 0;
                let ghost q = self.queue_tracks@;
                let mut queue = crate::messages::clone_tracks(&self.queue_tracks);
                while i < tracks.len()
                    invariant
                        i <= tracks.len(),
                        queue@ == q + tracks@.take(i as int),
                    decreases tracks.len() - i,
                {
                    queue.push(tracks[i].clone());
                    i += 1;
                    assert(queue@ =~= q + tracks@.take(i as int));
                }
                assert(tracks@.take(tracks@.len() as int) =~= tracks@);
                self.queue_tracks = queue;
                let mut actions: Vec<PlaybackAction> = Vec::new();
                if was_empty && self.autoplay_on_queue_add {
                    actions.push(PlaybackAction::Emit(PlaybackEvent::Play));
                }
                actions.push(PlaybackAction::SaveQueue);
                let n = u64_to_decimal(tracks.len() as u64);
                self.status = concat3("Added ", n.as_str(), " tracks to the queue.");
                assert(self@ =~= step(old(self)@, *event, *env).0);
                assert(actions@ =~= step(old(self)@, *event, *env).1);
                actions
            },
            _ => Vec::new(),
        }
    }

    fn on_open_album_from_playback(&mut self, event: &PlaybackEvent, env: &PlaybackEnv) -> (actions: Vec<PlaybackAction>)
        requires
            event is OpenAlbumFromPlayback,
        ensures
            final(self)@ == step(old(self)@, *event, *env).0,
            actions@ == step(old(self)@, *event, *env).1,
    {
        match event {
            PlaybackEvent::OpenAlbumFromPlayback { track_id, image_key, image_url } => {
                if let Some(id) = track_id {
                    self.status = lit("Loading album from current track...");
                    assert(self@ =~= step(old(self)@, *event, *env).0);
                    return vec![PlaybackAction::NavigateTo(CenterPage::AlbumTracks), PlaybackAction::FetchAlbumFromTrack(id.clone())];
                }
                let same_key = match (image_key, &self.album_image_key) {
                    (Some(k), Some(a)) => crate::text::str_eq(k.as_str(), a.as_str()),
                    _ => false,
                };
                if same_key && self.album_tracks.len() > 0 {
                    return vec![PlaybackAction::NavigateTo(CenterPage::AlbumTracks)];
                }
                match self.find_album(image_key, image_url) {
                    Some(a) => {
                        self.status = concat3("Loading tracks for '", a.name.as_str(), "'...");
                        assert(self@ =~= step(old(self)@, *event, *env).0);
                        vec![PlaybackAction::NavigateTo(CenterPage::AlbumTracks), PlaybackAction::FetchAlbumTracks(a)]
                    },
                    None => {
                        self.status = lit("Album not found in current search results.");
                        assert(self@ =~= step(old(self)@, *event, *env).0);
                        Vec::new()
                    },
                }
            },
            _ => Vec::new(),
        }
    }

    fn on_previous(&mut self, event: &PlaybackEvent, env: &PlaybackEnv) -> (actions: Vec<PlaybackAction>)
        requires
            event is Previous,
        ensures
            final(self)@ == step(old(self)@, *event, *env).0,
            actions@ == step(old(self)@, *event, *env).1,
    {
        match event {
            PlaybackEvent::Previous => {
                let position_ms = scrub_position(self.playback_scrub_bp, self.playback_duration_ms);
                if position_ms > 3000 {
                    self.status = lit("Restarting current track...");
                    assert(self@ =~= step(old(self)@, *event, *env).0);
                    return vec![PlaybackAction::Emit(PlaybackEvent::Play)];
                }
                if self.recently_played.len() > 0 {
                    let t = self.recently_played.pop().unwrap();
                    self.queue_tracks.insert(0, t);
                    self.queue_current_index = Some(0);
                    self.status = lit("Playing previous track from recently played...");
                    assert(self@ =~= step(old(self)@, *event, *env).0);
                    vec![PlaybackAction::Emit(PlaybackEvent::Play)]
                } else if self.queue_tracks.len() > 0 {
                    self.status = lit("Replaying from start of queue...");
                    assert(self@ =~= step(old(self)@, *event, *env).0);
                    vec![PlaybackAction::Emit(PlaybackEvent::Play)]
                } else {
                    self.status = lit("Nothing to go back to.");
                    assert(self@ =~= step(old(self)@, *event, *env).0);
                    Vec::new()
                }
            },
            _ => Vec::new(),
        }
    }

    fn on_toggle(&mut self, event: &PlaybackEvent, env: &PlaybackEnv) -> (actions: Vec<PlaybackAction>)
        requires
            event is Toggle,
        ensures
            final(self)@ == step(old(self)@, *event, *env).0,
            actions@ == step(old(self)@, *event, *env).1,
    {
        match event {
            PlaybackEvent::Toggle => {
                if self.playback_is_playing {
                    vec![PlaybackAction::Emit(PlaybackEvent::Pause)]
                } else if self.local_should_start_from_queue() {
                    vec![PlaybackAction::Emit(PlaybackEvent::Play)]
                } else if self.playback_scrub_bp > 0 {
                    vec![PlaybackAction::Emit(PlaybackEvent::Resume)]
                } else {
                    vec![PlaybackAction::Emit(PlaybackEvent::Play)]
                }
            },
            _ => Vec::new(),
        }
    }

    fn on_stop(&mut self, event: &PlaybackEvent, env: &PlaybackEnv) -> (actions: Vec<PlaybackAction>)
        requires
            event is Stop,
        ensures
            final(self)@ == step(old(self)@, *event, *env).0,
            actions@ == step(old(self)@, *event, *env).1,
    {
        match event {
            PlaybackEvent::Stop => {
                self.playback_is_playing = false;
                self.playback_scrub_bp = 0;
                self.playback_track_name = String::new();
                self.playback_track_id = None;
                self.playback_track_image_url = None;
                assert(self@ =~= step(old(self)@, *event, *env).0);
                vec![PlaybackAction::StopLocal, PlaybackAction::StopRemote]
            },
            _ => Vec::new(),
        }
    }

    fn on_resume(&mut self, event: &PlaybackEvent, env: &PlaybackEnv) -> (actions: Vec<PlaybackAction>)
        requires
            event is Resume,
        ensures
            final(self)@ == step(old(self)@, *event, *env).0,
            actions@ == step(old(self)@, *event, *env).1,
    {
        match event {
            PlaybackEvent::Resume => {
                if self.local_should_start_from_queue() {
                    self.status = lit("Starting playback from queue on local device...");
                    assert(self@ =~= step(old(self)@, *event, *env).0);
                    return vec![PlaybackAction::Emit(PlaybackEvent::Play)];
                }
                self.status = lit("Resuming playback on local device...");
                self.playback_is_playing = true;
                assert(self@ =~= step(old(self)@, *event, *env).0);
                vec![PlaybackAction::ResumeLocal]
            },
            _ => Vec::new(),
        }
    }

    fn on_pause(&mut self, event: &PlaybackEvent, env: &PlaybackEnv) -> (actions: Vec<PlaybackAction>)
        requires
            event is Pause,
        ensures
            final(self)@ == step(old(self)@, *event, *env).0,
            actions@ == step(old(self)@, *event, *env).1,
    {
        match event {
            PlaybackEvent::Pause => {
                self.status = lit("Sending pause command to local device...");
                self.playback_is_playing = false;
                assert(self@ =~= step(old(self)@, *event, *env).0);
                vec![PlaybackAction::PauseLocal]
            },
            _ => Vec::new(),
        }
    }

    fn on_next(&mut self, event: &PlaybackEvent, env: &PlaybackEnv) -> (actions: Vec<PlaybackAction>)
        requires
            event is Next,
        ensures
            final(self)@ == step(old(self)@, *event, *env).0,
            actions@ == step(old(self)@, *event, *env).1,
    {
        match event {
            PlaybackEvent::Next => {
                if self.queue_tracks.len() <= 1 {
                    self.status = lit("Queue is empty.");
                    assert(self@ =~= step(old(self)@, *event, *env).0);
                    return Vec::new();
                }
                self.advance()
            },
            _ => Vec::new(),
        }
    }

    fn on_toggle_mute(&mut self, event: &PlaybackEvent, env: &PlaybackEnv) -> (actions: Vec<PlaybackAction>)
        requires
            event is ToggleMute,
        ensures
            final(self)@ == step(old(self)@, *event, *env).0,
            actions@ == step(old(self)@, *event, *env).1,
    {
        match event {
            PlaybackEvent::ToggleMute => {
                if self.playback_is_muted {
                    self.playback_is_muted = false;
                    vec![PlaybackAction::Emit(PlaybackEvent::SetVolume(self.pre_mute_volume))]
                } else {
                    self.pre_mute_volume = self.playback_volume;
                    self.playback_is_muted = true;
                    vec![PlaybackAction::Emit(PlaybackEvent::SetVolume(0))]
                }
            },
            _ => Vec::new(),
        }
    }

    fn on_set_volume(&mut self, event: &PlaybackEvent, env: &PlaybackEnv) -> (actions: Vec<PlaybackAction>)
        requires
            event is SetVolume,
        ensures
            final(self)@ == step(old(self)@, *event, *env).0,
            actions@ == step(old(self)@, *event, *env).1,
    {
        match event {
            PlaybackEvent::SetVolume(v) => {
                let clamped: u8 = if *v <= 100 { *v } else { 100 };
                self.playback_volume = clamped;
                vec![PlaybackAction::SetLocalVolume(clamped)]
            },
            _ => Vec::new(),
        }
    }

    fn on_set_scrub(&mut self, event: &PlaybackEvent, env: &PlaybackEnv) -> (actions: Vec<PlaybackAction>)
        requires
            event is SetScrub,
        ensures
            final(self)@ == step(old(self)@, *event, *env).0,
            actions@ == step(old(self)@, *event, *env).1,
    {
        match event {
            PlaybackEvent::SetScrub(bp) => {
                let clamped: u32 = if *bp <= 10000 { *bp } else { 10000 };
                let duration = self.playback_duration_ms;
                self.playback_scrub_bp = clamped;
                self.last_scrub_user_input_at = Some(env.now_ms);
                if duration == 0 {
                    return Vec::new();
                }
                vec![PlaybackAction::SeekLocal(seek_target(clamped, duration))]
            },
            _ => Vec::new(),
        }
    }

    fn on_session_ready(&mut self, event: &PlaybackEvent, env: &PlaybackEnv) -> (actions: Vec<PlaybackAction>)
        requires
            event is SessionReady,
        ensures
            final(self)@ == step(old(self)@, *event, *env).0,
            actions@ == step(old(self)@, *event, *env).1,
    {
        match event {
            PlaybackEvent::SessionReady => {
                self.playback_ready = true;
                self.playback_volume = env.persisted_volume_percent;
                self.pre_mute_volume = env.persisted_volume_percent;
                self.playback_is_muted = false;
                self.status = lit("Playback session is ready (OAuth token-based).");
                assert(self@ =~= step(old(self)@, *event, *env).0);
                Vec::new()
            },
            _ => Vec::new(),
        }
    }

    fn on_local_track_ended(&mut self, event: &PlaybackEvent, env: &PlaybackEnv) -> (actions: Vec<PlaybackAction>)
        requires
            event is LocalTrackEnded,
        ensures
            final(self)@ == step(old(self)@, *event, *env).0,
            actions@ == step(old(self)@, *event, *env).1,
    {
        match event {
            PlaybackEvent::LocalTrackEnded => {
                if debounced(self.last_local_track_end_handled_at, env.now_ms) {
                    return Vec::new();
                }
                self.last_local_track_end_handled_at = Some(env.now_ms);
                self.advance()
            },
            _ => Vec::new(),
        }
    }

    fn on_progress(&mut self, event: &PlaybackEvent, env: &PlaybackEnv) -> (actions: Vec<PlaybackAction>)
        requires
            event is Progress,
        ensures
            final(self)@ == step(old(self)@, *event, *env).0,
            actions@ == step(old(self)@, *event, *env).1,
    {
        match event {
            PlaybackEvent::Progress { position_ms, duration_ms, is_playing } => {
                let suppress = debounced(self.last_scrub_user_input_at, env.now_ms);
                self.playback_is_playing = *is_playing;
                self.playback_duration_ms = *duration_ms;
                if !suppress && *duration_ms > 0 {
                    let p: u64 = if *position_ms <= *duration_ms { *position_ms as u64 } else { *duration_ms as u64 };
                    let bp = p * 10000 / (*duration_ms as u64);
                    assert(bp <= 10000) by (nonlinear_arith)
                        requires bp == p * 10000 / (*duration_ms as int), p <= *duration_ms, *duration_ms > 0;
                    self.playback_scrub_bp = bp as u32;
                }
                Vec::new()
            },
            _ => Vec::new(),
        }
    }

    fn on_artwork_loaded(&mut self, event: &PlaybackEvent, env: &PlaybackEnv) -> (actions: Vec<PlaybackAction>)
        requires
            event is ArtworkLoaded,
        ensures
            final(self)@ == step(old(self)@, *event, *env).0,
            actions@ == step(old(self)@, *event, *env).1,
    {
        match event {
            PlaybackEvent::ArtworkLoaded { image_key } => {
                let same = match (&self.playback_track_image_key, image_key) {
                    (Some(a), Some(b)) => crate::text::str_eq(a.as_str(), b.as_str()),
                    (None, None) => true,
                    _ => false,
                };
                if !same {
                    let current = clone_opt_string(&self.playback_track_image_key);
                    self.playback_overlay_image_key = current;
                    self.playback_track_image_key = clone_opt_string(image_key);
                    assert(self@ =~= step(old(self)@, *event, *env).0);
                    vec![PlaybackAction::PlayArtworkFade]
                } else {
                    Vec::new()
                }
            },
            _ => Vec::new(),
        }
    }

    /// Handles one playback event and returns the work it asks for.
    /// A shuffle gets its order from the random source.
    pub fn event(&mut self, event: &PlaybackEvent, env: &PlaybackEnv) -> (actions: Vec<PlaybackAction>)
        requires
            event matches PlaybackEvent::SelectQueueTrack(i) ==> i < old(self).queue_tracks@.len(),
        ensures
            !(event is ShuffleQueue) ==> final(self)@ == step(old(self)@, *event, *env).0,
            !(event is ShuffleQueue) ==> actions@ == step(old(self)@, *event, *env).1,
            event is ShuffleQueue ==> shuffled(old(self)@, final(self)@) && actions@.len() == 0,
    {
        match event {
            PlaybackEvent::ClearQueue => self.on_clear_queue(event, env),
            PlaybackEvent::ClearRecentlyPlayed => self.on_clear_recently_played(event, env),
            PlaybackEvent::ShuffleQueue => self.on_shuffle_queue(event, env),
            PlaybackEvent::AddToQueue(_) => self.on_add_to_queue(event, env),
            PlaybackEvent::OpenAlbumFromPlayback { .. } => self.on_open_album_from_playback(event, env),
            PlaybackEvent::SelectQueueTrack(index) => self.select_queue_track(*index),
            PlaybackEvent::Previous => self.on_previous(event, env),
            PlaybackEvent::Toggle => self.on_toggle(event, env),
            PlaybackEvent::Stop => self.on_stop(event, env),
            PlaybackEvent::Resume => self.on_resume(event, env),
            PlaybackEvent::Play => self.play(),
            PlaybackEvent::Pause => self.on_pause(event, env),
            PlaybackEvent::Next => self.on_next(event, env),
            PlaybackEvent::ToggleMute => self.on_toggle_mute(event, env),
            PlaybackEvent::SetVolume(_) => self.on_set_volume(event, env),
            PlaybackEvent::SetScrub(_) => self.on_set_scrub(event, env),
            PlaybackEvent::SessionReady => self.on_session_ready(event, env),
            PlaybackEvent::LocalTrackEnded => self.on_local_track_ended(event, env),
            PlaybackEvent::Progress { .. } => self.on_progress(event, env),
            PlaybackEvent::ArtworkLoaded { .. } => self.on_artwork_loaded(event, env),
        }
    }

    /// Finishes a volume change once the local player answered: an error
    /// is reported in the status, a success is saved.
    pub fn volume_applied(&mut self, target: u8, result: Result<(), String>) -> (actions: Vec<PlaybackAction>)
        ensures
            result is Err ==> final(self)@ == (PlaybackModel {
                status: "Failed to set local volume: "@ + result->Err_0@,
                ..old(self)@
            }) && actions@.len() == 0,
            result is Ok ==> final(self)@ == old(self)@ && actions@ == seq![PlaybackAction::SaveLocalVolume(target)],
    {
        match result {
            Err(e) => {
                self.status = crate::text::concat2("Failed to set local volume: ", e.as_str());
                Vec::new()
            },
            Ok(()) => vec![PlaybackAction::SaveLocalVolume(target)],
        }
    }
}

fn find_by_key(rows: &Vec<Album>, k: &String) -> (a: Option<Album>)
    ensures
        a == first_album_with_key(rows@, k@),
{
    let mut i: usize = 0;
    assert(rows@.skip(0) =~= rows@);
    while i < rows.len()
        invariant
            i <= rows.len(),
            first_album_with_key(rows@, k@) == first_album_with_key(rows@.skip(i as int), k@),
        decreases rows.len() - i,
    {
        assert(rows@.skip(i as int).drop_first() =~= rows@.skip(i + 1));
        assert(rows@.skip(i as int)[0] == rows@[i as int]);
        if let Some(rk) = &rows[i].image_key {
            if crate::text::str_eq(rk.as_str(), k.as_str()) {
                return Some(rows[i].clone());
            }
        }
        i += 1;
    }
    assert(rows@.skip(i as int) =~= Seq::<Album>::empty());
    None
}

fn find_by_url(rows: &Vec<Album>, u: &String) -> (a: Option<Album>)
    ensures
        a == first_album_with_url(rows@, u@),
{
    let mut i: usize = 0;
    assert(rows@.skip(0) =~= rows@);
    while i < rows.len()
        invariant
            i <= rows.len(),
            first_album_with_url(rows@, u@) == first_album_with_url(rows@.skip(i as int), u@),
        decreases rows.len() - i,
    {
        assert(rows@.skip(i as int).drop_first() =~= rows@.skip(i + 1));
        assert(rows@.skip(i as int)[0] == rows@[i as int]);
        if let Some(ru) = &rows[i].image_url {
            if crate::text::str_eq(ru.as_str(), u.as_str()) {
                return Some(rows[i].clone());
            }
        }
        i += 1;
    }
    assert(rows@.skip(i as int) =~= Seq::<Album>::empty());
    None
}

fn debounced(at: Option<u64>, now: u64) -> (b: bool)
    ensures
        b == within_debounce(at, now),
{
    match at {
        Some(t) => now.saturating_sub(t) < 700,
        None => false,
    }
}

// ------------------------------------------------------------- shuffling
/// `order` lists each of `0..n` exactly once.
pub open spec fn is_permutation_of_range(order: Seq<usize>, n: nat) -> bool {
    &&& order.len() == n
    &&& forall|i: int| 0 <= i < order.len() ==> (#[trigger] order[i]) < n
    &&& forall|i: int, j: int| 0 <= i < j < order.len() ==> order[i] != order[j]
}

/// The queue entry that stays first when shuffling, if any.
pub open spec fn pinned_index(q: Seq<Track>, current: Option<usize>) -> Option<usize> {
    match current {
        Some(i) => Some(if i <= q.len() - 1 { i } else { (q.len() - 1) as usize }),
        None => None,
    }
}

/// The queue without its pinned entry.
pub open spec fn pool(q: Seq<Track>, pinned: Option<usize>) -> Seq<Track> {
    match pinned {
        Some(p) => q.remove(p as int),
        None => q,
    }
}

/// The queue after shuffling with `order`.
pub open spec fn shuffled_queue(q: Seq<Track>, current: Option<usize>, order: Seq<usize>) -> Seq<Track> {
    let pinned = pinned_index(q, current);
    let rest = pool(q, pinned);
    let arranged = Seq::new(order.len(), |x: int| rest[order[x] as int]);
    match pinned {
        Some(p) => seq![q[p as int]] + arranged,
        None => arranged,
    }
}

/// What every shuffle outcome satisfies.
pub open spec fn shuffled(m: PlaybackModel, m2: PlaybackModel) -> bool {
    if m.queue.len() < 2 {
        m2 == (PlaybackModel { status: "Need at least two tracks in queue to shuffle."@, ..m })
    } else {
        exists|order: Seq<usize>| is_permutation_of_range(order,
            if m.current_index is Some { (m.queue.len() - 1) as nat } else { m.queue.len() as nat })
            && m2 == (PlaybackModel {
                queue: shuffled_queue(m.queue, m.current_index, order),
                current_index: if m.current_index is Some { Some(0usize) } else { None },
                status: "Queue shuffled."@,
                ..m
            })
    }
}

/// A random arrangement of `0..n` (rand's `SliceRandom::shuffle`, a
/// Fisher-Yates shuffle): the result lists each index exactly once. Which
/// arrangement comes out is left open; it rests on the random source.
#[verifier::external_body]
fn shuffle_indices(order: &mut Vec<usize>)
    ensures
        final(order)@.to_multiset() == old(order)@.to_multiset(),
{
    order.shuffle(&mut rand::thread_rng());
}

/// A random arrangement of `0..n`.
pub fn random_order(n: usize) -> (order: Vec<usize>)
    ensures
        is_permutation_of_range(order@, n as nat),
{
    let mut order: Vec<usize> = Vec::new();
    let mut i: usize = 0;
    while i < n
        invariant
            i <= n,
            order@ == Seq::new(i as nat, |k: int| k as usize),
        decreases n - i,
    {
        order.push(i);
        i += 1;
        assert(order@ =~= Seq::new(i as nat, |k: int| k as usize));
    }
    let ghost before = order@;
    shuffle_indices(&mut order);
    proof {
        lemma_multiset_perm(before, order@, n as nat);
    }
    order
}

proof fn lemma_multiset_perm(a: Seq<usize>, b: Seq<usize>, n: nat)
    requires
        n <= usize::MAX,
        a == Seq::new(n, |k: int| k as usize),
        b.to_multiset() == a.to_multiset(),
    ensures
        is_permutation_of_range(b, n),
{
    broadcast use vstd::seq_lib::group_to_multiset_ensures;
    assert(a.no_duplicates()) by {
        assert forall|i: int, j: int| 0 <= i < a.len() && 0 <= j < a.len() && i != j implies a[i] != a[j] by {}
    }
    a.lemma_multiset_has_no_duplicates();
    b.lemma_multiset_has_no_duplicates_conv();
    assert(b.len() == a.len()) by {
        assert(b.to_multiset().len() == b.len());
        assert(a.to_multiset().len() == a.len());
    }
    assert forall|i: int| 0 <= i < b.len() implies (#[trigger] b[i]) < n by {
        assert(b.contains(b[i]));
        assert(a.to_multiset().count(b[i]) > 0);
        assert(a.contains(b[i]));
        let k = choose|k: int| 0 <= k < a.len() && a[k] == b[i];
        assert(a[k] == k as usize);
    }
}

} // verus!
