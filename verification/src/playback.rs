//! Local playback: the progress the player reports, the end-of-track rules,
//! and the commands handed to the audio player and its mixer.
//!
//! The player and mixer themselves live outside the library; each method
//! here decides, from the handle's state, which command they are given (or
//! why none can be), and keeps the progress that the player's events update.
use vstd::prelude::*;

use crate::messages::Track;
use crate::spotify::fields::track_uri;
use crate::text::{is_blank, owned};
use crate::ui::playback_state::DEFAULT_LOCAL_VOLUME_PERCENT;

verus! {

/// The mixer volume for a percentage: the percentage (at most 100) scaled to
/// `0..=65535`, rounded down.
pub open spec fn mixer_volume(percent: u8) -> int {
    let p: int = if percent <= 100 { percent as int } else { 100 };
    (p * 65535) / 100
}

/// `percent` (capped at 100) as a mixer volume.
pub fn percent_to_librespot_volume(percent: u8) -> (v: u16)
    ensures
        v as int == mixer_volume(percent),
{
    let clamped: u32 = if percent <= 100 { percent as u32 } else { 100 };
    assert(clamped * 65535 / 100 <= 65535) by (nonlinear_arith)
        requires
            clamped <= 100,
    ;
    ((clamped * 65535) / 100) as u16
}

/// A command for the audio player or its mixer.
#[derive(Debug, PartialEq, Eq)]
pub enum PlayerCommand {
    /// Set the mixer to this volume.
    SetVolume(u16),
    /// Seek the current track to this position.
    Seek(u32),
    /// Stop, load the track with this URI and start playing it.
    LoadAndPlay(String),
    /// Resume playing.
    Play,
    /// Pause.
    Pause,
    /// Stop.
    Stop,
}

/// What the player reports.
#[derive(Clone, Copy, Debug, PartialEq, Eq, Structural)]
pub enum PlayerEvent {
    Playing { position_ms: u32 },
    PositionChanged { position_ms: u32 },
    PositionCorrection { position_ms: u32 },
    Seeked { position_ms: u32 },
    Paused { position_ms: u32 },
    Stopped,
    EndOfTrack,
    /// Any other report, which changes nothing.
    Other,
}

/// The local player's handle: whether its mixer and player exist, and the
/// progress of the current track.
#[derive(Debug)]
pub struct LocalPlaybackHandle {
    pub mixer_ready: bool,
    pub player_ready: bool,
    pub position_ms: u32,
    pub duration_ms: u32,
    pub is_playing: bool,
    pub track_finished: bool,
    pub loading_track: bool,
}

/// How close to the end (in ms) a stop counts as the track finishing.
pub const STOP_END_TOLERANCE_MS: u32 = 750;

/// How close to the end (in ms) a stalled player counts as finished.
pub const STALL_END_TOLERANCE_MS: u32 = 900;

/// `a - b`, or 0 where `b` is larger (`u32::saturating_sub`).
pub open spec fn sat_sub(a: u32, b: u32) -> u32 {
    if a >= b { (a - b) as u32 } else { 0 }
}

/// The handle after a report of the player, before the position is clamped.
pub open spec fn after_event_raw(h: LocalPlaybackHandle, e: PlayerEvent) -> LocalPlaybackHandle {
    match e {
        PlayerEvent::Playing { position_ms }
        | PlayerEvent::PositionChanged { position_ms }
        | PlayerEvent::PositionCorrection { position_ms }
        | PlayerEvent::Seeked { position_ms } => LocalPlaybackHandle {
            position_ms,
            is_playing: true,
            loading_track: false,
            ..h
        },
        PlayerEvent::Paused { position_ms } => LocalPlaybackHandle {
            position_ms,
            is_playing: false,
            loading_track: if position_ms > 0 { false } else { h.loading_track },
            ..h
        },
        PlayerEvent::Stopped => LocalPlaybackHandle {
            is_playing: false,
            track_finished: if !h.loading_track && h.duration_ms > 0 && h.position_ms >= sat_sub(h.duration_ms, STOP_END_TOLERANCE_MS) {
                true
            } else {
                h.track_finished
            },
            ..h
        },
        PlayerEvent::EndOfTrack => LocalPlaybackHandle {
            is_playing: false,
            track_finished: if !h.loading_track { true } else { h.track_finished },
            ..h
        },
        PlayerEvent::Other => h,
    }
}

/// The handle after a report: the raw update, then a position past the
/// known duration is pulled back to it.
pub open spec fn after_event(h: LocalPlaybackHandle, e: PlayerEvent) -> LocalPlaybackHandle {
    let r = after_event_raw(h, e);
    if r.duration_ms > 0 && r.position_ms > r.duration_ms {
        LocalPlaybackHandle { position_ms: r.duration_ms, ..r }
    } else {
        r
    }
}

/// Whether a stalled player counts as having finished its track: not
/// playing, not loading, a known duration, and within the tolerance of its end.
pub open spec fn stalled_at_end(h: LocalPlaybackHandle) -> bool {
    !h.is_playing && !h.loading_track && h.duration_ms > 0
        && h.position_ms >= sat_sub(h.duration_ms, STALL_END_TOLERANCE_MS)
}

/// The handle after `track` starts: at 0 of the track's duration, paused,
/// not finished, loading.
pub open spec fn started(h: LocalPlaybackHandle, track: Track) -> LocalPlaybackHandle {
    LocalPlaybackHandle {
        duration_ms: track.duration_ms,
        position_ms: 0,
        is_playing: false,
        track_finished: false,
        loading_track: true,
        ..h
    }
}

/// The handle after a stop: back at 0, not playing.
pub open spec fn stopped(h: LocalPlaybackHandle) -> LocalPlaybackHandle {
    LocalPlaybackHandle { position_ms: 0, is_playing: false, ..h }
}

/// The handle with its finished mark set to `finished`.
pub open spec fn with_finished(h: LocalPlaybackHandle, finished: bool) -> LocalPlaybackHandle {
    LocalPlaybackHandle { track_finished: finished, ..h }
}

/// A handle with neither mixer nor player and no progress.
pub open spec fn empty_handle() -> LocalPlaybackHandle {
    LocalPlaybackHandle {
        mixer_ready: false,
        player_ready: false,
        position_ms: 0,
        duration_ms: 0,
        is_playing: false,
        track_finished: false,
        loading_track: false,
    }
}

/// The handle once its mixer and player exist.
pub open spec fn with_devices(h: LocalPlaybackHandle) -> LocalPlaybackHandle {
    LocalPlaybackHandle { mixer_ready: true, player_ready: true, ..h }
}

/// The command failed with message `m`.
pub open spec fn fails_with(r: Result<PlayerCommand, String>, m: Seq<char>) -> bool {
    r matches Err(e) && e@ == m
}

impl LocalPlaybackHandle {
    /// A handle with neither mixer nor player and no progress.
    pub fn new() -> (h: Self)
        ensures
            h == empty_handle(),
    {
        LocalPlaybackHandle {
            mixer_ready: false,
            player_ready: false,
            position_ms: 0,
            duration_ms: 0,
            is_playing: false,
            track_finished: false,
            loading_track: false,
        }
    }

    fn player_error() -> (e: String)
        ensures
            e@ == "Local player is not initialized"@,
    {
        owned("Local player is not initialized")
    }

    /// The mixer command for `percent`, or the error that there is no mixer.
    pub fn set_volume_percent(&self, percent: u8) -> (r: Result<PlayerCommand, String>)
        ensures
            self.mixer_ready ==> (r matches Ok(PlayerCommand::SetVolume(v)) && v as int == mixer_volume(percent)),
            !self.mixer_ready ==> fails_with(r, "Local mixer is not initialized"@),
    {
        if !self.mixer_ready {
            return Err(owned("Local mixer is not initialized"));
        }
        Ok(PlayerCommand::SetVolume(percent_to_librespot_volume(percent)))
    }

    /// The seek command, or the error that there is no player.
    pub fn seek_to(&self, position_ms: u32) -> (r: Result<PlayerCommand, String>)
        ensures
            self.player_ready ==> r == Ok::<PlayerCommand, String>(PlayerCommand::Seek(position_ms)),
            !self.player_ready ==> fails_with(r, "Local player is not initialized"@),
    {
        if !self.player_ready {
            return Err(Self::player_error());
        }
        Ok(PlayerCommand::Seek(position_ms))
    }

    /// Starts `track`: the progress restarts at 0 of the track's duration,
    /// paused, not finished and loading, and the player is told to load and
    /// play it. Without a player nothing changes.
    pub fn play_track(&mut self, track: &Track) -> (r: Result<PlayerCommand, String>)
        ensures
            old(self).player_ready ==> *final(self) == started(*old(self), *track),
            old(self).player_ready ==> (r matches Ok(PlayerCommand::LoadAndPlay(uri))
                && uri@ == "spotify:track:"@ + track.id@),
            !old(self).player_ready ==> fails_with(r, "Local player is not initialized"@)
                && *final(self) == *old(self),
    {
        if !self.player_ready {
            return Err(Self::player_error());
        }
        self.duration_ms = track.duration_ms;
        self.position_ms = 0;
        self.is_playing = false;
        self.track_finished = false;
        self.loading_track = true;
        Ok(PlayerCommand::LoadAndPlay(track_uri(track.id.as_str())))
    }

    /// The play command, or the error that there is no player.
    pub fn resume(&self) -> (r: Result<PlayerCommand, String>)
        ensures
            self.player_ready ==> r == Ok::<PlayerCommand, String>(PlayerCommand::Play),
            !self.player_ready ==> fails_with(r, "Local player is not initialized"@),
    {
        if !self.player_ready {
            return Err(Self::player_error());
        }
        Ok(PlayerCommand::Play)
    }

    /// The pause command, or the error that there is no player.
    pub fn pause(&self) -> (r: Result<PlayerCommand, String>)
        ensures
            self.player_ready ==> r == Ok::<PlayerCommand, String>(PlayerCommand::Pause),
            !self.player_ready ==> fails_with(r, "Local player is not initialized"@),
    {
        if !self.player_ready {
            return Err(Self::player_error());
        }
        Ok(PlayerCommand::Pause)
    }

    /// Stops: the position returns to 0 and playing stops. Without a player
    /// nothing changes.
    pub fn stop(&mut self) -> (r: Result<PlayerCommand, String>)
        ensures
            old(self).player_ready ==> r == Ok::<PlayerCommand, String>(PlayerCommand::Stop)
                && *final(self) == stopped(*old(self)),
            !old(self).player_ready ==> fails_with(r, "Local player is not initialized"@)
                && *final(self) == *old(self),
    {
        if !self.player_ready {
            return Err(Self::player_error());
        }
        self.position_ms = 0;
        self.is_playing = false;
        Ok(PlayerCommand::Stop)
    }

    /// Position, duration and whether it plays.
    pub fn playback_progress(&self) -> (p: Option<(u32, u32, bool)>)
        ensures
            p == Some((self.position_ms, self.duration_ms, self.is_playing)),
    {
        Some((self.position_ms, self.duration_ms, self.is_playing))
    }

    /// Marks the track finished where the player stalled at its end; true
    /// only where that newly marks it.
    pub fn mark_track_finished_if_stalled(&mut self) -> (newly: bool)
        ensures
            newly == (stalled_at_end(*old(self)) && !old(self).track_finished),
            *final(self) == (if stalled_at_end(*old(self)) { with_finished(*old(self), true) } else { *old(self) }),
    {
        if self.is_playing || self.loading_track || self.duration_ms == 0
            || self.position_ms < self.duration_ms.saturating_sub(STALL_END_TOLERANCE_MS)
        {
            return false;
        }
        let was = self.track_finished;
        self.track_finished = true;
        !was
    }

    /// Whether the track was marked finished; clears the mark.
    pub fn consume_track_finished(&mut self) -> (finished: bool)
        ensures
            finished == old(self).track_finished,
            *final(self) == with_finished(*old(self), false),
    {
        let was = self.track_finished;
        self.track_finished = false;
        was
    }

    /// Takes in a report of the player.
    pub fn apply_player_event(&mut self, event: PlayerEvent)
        ensures
            *final(self) == after_event(*old(self), event),
    {
        match event {
            PlayerEvent::Playing { position_ms }
            | PlayerEvent::PositionChanged { position_ms }
            | PlayerEvent::PositionCorrection { position_ms }
            | PlayerEvent::Seeked { position_ms } => {
                self.position_ms = position_ms;
                self.is_playing = true;
                self.loading_track = false;
            },
            PlayerEvent::Paused { position_ms } => {
                self.position_ms = position_ms;
                self.is_playing = false;
                if position_ms > 0 {
                    self.loading_track = false;
                }
            },
            PlayerEvent::Stopped => {
                self.is_playing = false;
                if !self.loading_track && self.duration_ms > 0
                    && self.position_ms >= self.duration_ms.saturating_sub(STOP_END_TOLERANCE_MS)
                {
                    self.track_finished = true;
                }
            },
            PlayerEvent::EndOfTrack => {
                self.is_playing = false;
                if !self.loading_track {
                    self.track_finished = true;
                }
            },
            PlayerEvent::Other => {},
        }
        if self.duration_ms > 0 && self.position_ms > self.duration_ms {
            self.position_ms = self.duration_ms;
        }
    }
}

/// The local playback service: whether its session is up, and its handle.
#[derive(Debug)]
pub struct PlaybackService {
    pub session_ready: bool,
    pub local: LocalPlaybackHandle,
}

impl PlaybackService {
    /// No session and an empty handle.
    pub fn new() -> (s: Self)
        ensures
            !s.session_ready,
            s.local == empty_handle(),
    {
        PlaybackService { session_ready: false, local: LocalPlaybackHandle::new() }
    }

    /// Drops the session, the mixer and the player, and clears the progress.
    pub fn reset(&mut self)
        ensures
            !final(self).session_ready,
            final(self).local == empty_handle(),
    {
        self.session_ready = false;
        self.local = LocalPlaybackHandle::new();
    }

    /// Whether a session can be started with `access_token`: a token that is
    /// not blank.
    pub fn check_bootstrap_token(access_token: &str) -> (r: Result<(), String>)
        ensures
            r is Ok <==> crate::text::trim(access_token@).len() != 0,
            r matches Err(e) ==> e@ == "Access token is required for playback bootstrap"@,
    {
        if is_blank(access_token) {
            return Err(owned("Access token is required for playback bootstrap"));
        }
        Ok(())
    }

    /// Records a session that came up with its mixer and player, and gives
    /// the mixer its starting volume.
    pub fn session_started(&mut self) -> (c: PlayerCommand)
        ensures
            final(self).session_ready,
            final(self).local == with_devices(old(self).local),
            c matches PlayerCommand::SetVolume(v) && v as int == mixer_volume(DEFAULT_LOCAL_VOLUME_PERCENT),
    {
        self.session_ready = true;
        self.local.mixer_ready = true;
        self.local.player_ready = true;
        PlayerCommand::SetVolume(percent_to_librespot_volume(DEFAULT_LOCAL_VOLUME_PERCENT))
    }
}

/// After any report of the player, the position lies within a known duration.
pub proof fn law_position_within_duration(h: LocalPlaybackHandle, e: PlayerEvent)
    ensures
        after_event(h, e).duration_ms > 0 ==> after_event(h, e).position_ms <= after_event(h, e).duration_ms,
{
}

/// A track that is still loading is never taken as finished: neither a stop
/// nor an end-of-track report marks a freshly started track finished.
pub proof fn law_loading_track_never_finishes(h: LocalPlaybackHandle, t: Track)
    ensures
        !after_event(started(h, t), PlayerEvent::Stopped).track_finished,
        !after_event(started(h, t), PlayerEvent::EndOfTrack).track_finished,
{
}

/// A stall at the end of a track is reported once: the mark leaves a state
/// where marking again reports nothing, the next consume reports it, and a
/// consume after that reports nothing.
pub proof fn law_finish_reported_once(h: LocalPlaybackHandle)
    requires
        stalled_at_end(h),
        !h.track_finished,
    ensures
        ({
            let marked = with_finished(h, true);
            &&& stalled_at_end(marked) && marked.track_finished
            &&& with_finished(marked, false).track_finished == false
        }),
{
}

/// The mixer volume grows with the percentage, from 0 at 0% to the full
/// range at 100%, and percentages over 100 count as 100.
pub proof fn law_mixer_volume_scale(a: u8, b: u8)
    ensures
        a <= b ==> mixer_volume(a) <= mixer_volume(b),
        mixer_volume(0) == 0,
        mixer_volume(100) == 65535,
        a >= 100 ==> mixer_volume(a) == 65535,
{
    let pa: int = if a <= 100 { a as int } else { 100 };
    let pb: int = if b <= 100 { b as int } else { 100 };
    if a <= b {
        assert(pa <= pb);
        assert((pa * 65535) / 100 <= (pb * 65535) / 100) by (nonlinear_arith)
            requires
                0 <= pa <= pb,
        ;
    }
}

} // verus!
