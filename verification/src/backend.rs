//! The session behind the views: the tokens and their refresh, the login in
//! progress, the choice of a playback device, and the bookkeeping around
//! results whose artwork is fetched after them.
use vstd::prelude::*;
use vstd::string::StringExecFns;

use crate::messages::{Album, Artist, PlaylistEntry, Track};
use crate::oauth::{unix_now_secs, TokenResponse};
use crate::playback::{empty_handle, LocalPlaybackHandle, PlaybackService};
use crate::ui::events::PlaybackEvent;
use crate::spotify::types::PlaybackDevice;
use crate::spotify::{SpotifyPlaylist, SpotifyService};
use crate::storage::{ClientCredentialStore, TokenStore};
use crate::text::{concat2, concat3, decimal, owned, u64_to_decimal};

verus! {

/// How long before its expiry (in seconds) a token is refreshed.
pub const REFRESH_MARGIN_SECS: u64 = 60;

/// The login and playback state of the running application.
#[derive(Debug)]
pub struct BackendState {
    pub spotify: SpotifyService,
    pub playback: PlaybackService,
    pub oauth_in_progress: bool,
    pub refresh_token: Option<String>,
    pub client_id: Option<String>,
    pub token_expires_at: Option<u64>,
}

/// Whether the token must be refreshed at time `now`: there is a refresh
/// token, a known expiry, and the expiry is at most a minute away.
pub open spec fn needs_refresh(s: BackendState, now: u64) -> bool {
    &&& s.refresh_token is Some
    &&& s.token_expires_at is Some
    &&& now + REFRESH_MARGIN_SECS >= s.token_expires_at->0
}

/// What keeping the token fresh asks for at a given time.
#[derive(Debug)]
pub enum RefreshPlan {
    /// The token is good for more than a minute.
    UpToDate,
    /// Refresh with this client id and refresh token.
    Refresh { client_id: String, refresh_token: String },
    /// A refresh is due but cannot be made; the message says why.
    Missing(String),
}

/// The state after new tokens arrive at `now`: the access token is used, a
/// new refresh token replaces the old one (the old one stays otherwise), and
/// the expiry is `now` plus the token's lifetime.
pub open spec fn with_tokens(s: BackendState, tokens: TokenResponse, now: u64) -> BackendState {
    BackendState {
        spotify: SpotifyService { access_token: Some(tokens.access_token) },
        refresh_token: match tokens.refresh_token {
            Some(r) => Some(r),
            None => s.refresh_token,
        },
        token_expires_at: Some((now + tokens.expires_in) as u64),
        ..s
    }
}

/// The state after a saved login is taken up: its token, refresh token and
/// expiry, and the saved client id where there is one.
pub open spec fn restored(s: BackendState, token: TokenStore, creds: Option<ClientCredentialStore>) -> BackendState {
    BackendState {
        spotify: SpotifyService { access_token: Some(token.access_token) },
        refresh_token: token.refresh_token,
        token_expires_at: token.expires_at,
        client_id: match creds {
            Some(c) => Some(c.client_id),
            None => s.client_id,
        },
        ..s
    }
}

/// The record saved for a signed-in state: its token, refresh token and
/// expiry.
pub open spec fn saved_record(s: BackendState) -> TokenStore {
    TokenStore {
        access_token: s.spotify.access_token->0,
        refresh_token: s.refresh_token,
        expires_at: s.token_expires_at,
    }
}

impl BackendState {
    /// Signed out, no login in progress, an idle player.
    pub fn new() -> (s: Self)
        ensures
            s.spotify.access_token is None,
            !s.playback.session_ready,
            s.playback.local == empty_handle(),
            !s.oauth_in_progress,
            s.refresh_token is None,
            s.client_id is None,
            s.token_expires_at is None,
    {
        BackendState {
            spotify: SpotifyService::new(),
            playback: PlaybackService::new(),
            oauth_in_progress: false,
            refresh_token: None,
            client_id: None,
            token_expires_at: None,
        }
    }

    /// The whole seconds since the UNIX epoch, by the system clock.
    pub fn now_secs() -> u64 {
        unix_now_secs()
    }

    /// Whether the token must be refreshed at time `now`.
    pub fn token_needs_refresh_at(&self, now: u64) -> (r: bool)
        ensures
            r == needs_refresh(*self, now),
    {
        if self.refresh_token.is_none() {
            return false;
        }
        match self.token_expires_at {
            Some(expires_at) => expires_at <= REFRESH_MARGIN_SECS || now >= expires_at - REFRESH_MARGIN_SECS,
            None => false,
        }
    }

    /// Whether the token must be refreshed now (by the system clock).
    pub fn token_needs_refresh(&self) -> (r: bool)
        ensures
            r ==> self.refresh_token is Some && self.token_expires_at is Some,
            exists|now: u64| r == needs_refresh(*self, now),
    {
        let now = Self::now_secs();
        self.token_needs_refresh_at(now)
    }

    /// Takes up a saved login: its tokens and, where there is one, its
    /// client id.
    pub fn restore_saved_login(&mut self, token: TokenStore, creds: Option<ClientCredentialStore>)
        ensures
            *final(self) == restored(*old(self), token, creds),
    {
        self.spotify.set_access_token(token.access_token);
        self.refresh_token = token.refresh_token;
        self.token_expires_at = token.expires_at;
        if let Some(c) = creds {
            self.client_id = Some(c.client_id);
        }
    }

    /// What keeping the token fresh asks for at time `now`.
    pub fn refresh_plan(&self, now: u64) -> (p: RefreshPlan)
        ensures
            !needs_refresh(*self, now) ==> p is UpToDate,
            needs_refresh(*self, now) && self.client_id is Some ==> (p matches RefreshPlan::Refresh { client_id, refresh_token }
                && client_id == self.client_id->0 && refresh_token == self.refresh_token->0),
            needs_refresh(*self, now) && self.client_id is None ==> (p matches RefreshPlan::Missing(m)
                && m@ == "Token refresh required but client ID or refresh token is missing."@),
    {
        if !self.token_needs_refresh_at(now) {
            return RefreshPlan::UpToDate;
        }
        match (&self.client_id, &self.refresh_token) {
            (Some(c), Some(r)) => RefreshPlan::Refresh { client_id: c.clone(), refresh_token: r.clone() },
            _ => RefreshPlan::Missing(owned("Token refresh required but client ID or refresh token is missing.")),
        }
    }

    /// Takes in tokens that arrived at `now` and gives the record to save.
    pub fn apply_refreshed_tokens(&mut self, tokens: TokenResponse, now: u64) -> (saved: TokenStore)
        requires
            now + tokens.expires_in <= u64::MAX,
        ensures
            *final(self) == with_tokens(*old(self), tokens, now),
            saved == saved_record(*final(self)),
    {
        let expires_at = now + tokens.expires_in;
        let access = tokens.access_token;
        self.spotify.set_access_token(access.clone());
        if let Some(r) = tokens.refresh_token {
            self.refresh_token = Some(r);
        }
        self.token_expires_at = Some(expires_at);
        let refresh_token = match &self.refresh_token {
            Some(r) => Some(r.clone()),
            None => None,
        };
        TokenStore { access_token: access, refresh_token, expires_at: Some(expires_at) }
    }

    /// Takes in the tokens of a login or refresh made with `client_id`.
    pub fn apply_token_response(&mut self, tokens: TokenResponse, client_id: &str, now: u64) -> (saved: TokenStore)
        requires
            now + tokens.expires_in <= u64::MAX,
        ensures
            (BackendState { client_id: old(self).client_id, ..*final(self) }) == with_tokens(*old(self), tokens, now),
            final(self).client_id matches Some(c) && c@ == client_id@,
            saved == saved_record(*final(self)),
    {
        let saved = self.apply_refreshed_tokens(tokens, now);
        self.client_id = Some(owned(client_id));
        saved
    }

    /// Forgets the login: the token, the player, the refresh token, client
    /// id and expiry.
    pub fn reset_login(&mut self)
        ensures
            final(self).spotify.access_token is None,
            !final(self).playback.session_ready,
            final(self).playback.local == empty_handle(),
            final(self).refresh_token is None,
            final(self).client_id is None,
            final(self).token_expires_at is None,
            final(self).oauth_in_progress == old(self).oauth_in_progress,
    {
        self.spotify.clear_access_token();
        self.playback.reset();
        self.refresh_token = None;
        self.client_id = None;
        self.token_expires_at = None;
    }

    /// Starts a login, unless one is already under way.
    pub fn begin_oauth_login(&mut self) -> (r: Result<(), String>)
        ensures
            login_refused(*old(self)) ==> (r matches Err(m) && m@ == LOGIN_IN_PROGRESS@),
            !login_refused(*old(self)) ==> r is Ok,
            *final(self) == begin_login(*old(self)),
    {
        if self.oauth_in_progress {
            return Err(owned(LOGIN_IN_PROGRESS));
        }
        self.oauth_in_progress = true;
        Ok(())
    }

    /// Ends the login under way (whatever its outcome).
    pub fn end_oauth_login(&mut self)
        ensures
            *final(self) == end_login(*old(self)),
    {
        self.oauth_in_progress = false;
    }
}

/// What a login started while another is under way is answered.
pub const LOGIN_IN_PROGRESS: &'static str = "OAuth login is already in progress. Complete it in your browser.";

/// Whether a new login is refused: one is already under way.
pub open spec fn login_refused(s: BackendState) -> bool {
    s.oauth_in_progress
}

/// The state once a login has been asked for: marked as under way (a refused
/// request leaves it as it was, already marked).
pub open spec fn begin_login(s: BackendState) -> BackendState {
    BackendState { oauth_in_progress: true, ..s }
}

/// The state once the login under way has ended, whatever its outcome.
pub open spec fn end_login(s: BackendState) -> BackendState {
    BackendState { oauth_in_progress: false, ..s }
}

/// What can happen to the session while a login is under way, short of
/// ending it: another login is asked for, or the saved login is forgotten.
pub enum LoginStep {
    Begin,
    Reset,
}

/// The flag that a login is under way after `steps`, each a further begin or
/// a reset (which keeps the flag as it is).
pub open spec fn in_progress_after(s: BackendState, steps: Seq<LoginStep>) -> bool
    decreases steps.len(),
{
    if steps.len() == 0 {
        s.oauth_in_progress
    } else {
        match steps[0] {
            LoginStep::Begin => in_progress_after(begin_login(s), steps.drop_first()),
            LoginStep::Reset => in_progress_after(s, steps.drop_first()),
        }
    }
}

// --------------------------------------------------------------- login flow
/// What the shell reports while it carries out a login.
#[derive(Debug)]
pub enum LoginEvent {
    /// The user asks to log in with this client id.
    Start(String),
    /// Saving the client id gave this result (the error's text on failure).
    CredentialsSaved(String, Result<(), String>),
    /// Opening the browser at the authorization page gave this result.
    BrowserOpened(Result<(), String>),
    /// Waiting for the callback gave a code, or failed.
    CallbackReceived(Result<String, String>),
    /// Exchanging the code made with this client id gave tokens at time
    /// `now` (the third field), or failed.
    TokensReceived(String, Result<TokenResponse, String>, u64),
}

/// What the shell does next in a login.
#[derive(Debug)]
pub enum LoginAction {
    /// Show this status and do nothing else.
    Status(String),
    /// Save this client id.
    SaveCredentials(String),
    /// Open the browser at the authorization page.
    OpenBrowser,
    /// Wait for the browser's callback.
    WaitForCallback,
    /// Exchange this code for tokens.
    ExchangeCode(String),
    /// The login failed with this error.
    Fail(String),
    /// The login succeeded: save this token record.
    Done(TokenStore),
}

/// The mathematical value of a `LoginAction`.
pub enum LoginActionView {
    Status(Seq<char>),
    SaveCredentials(Seq<char>),
    OpenBrowser,
    WaitForCallback,
    ExchangeCode(Seq<char>),
    Fail(Seq<char>),
    Done(TokenStore),
}

impl View for LoginAction {
    type V = LoginActionView;

    open spec fn view(&self) -> LoginActionView {
        match self {
            LoginAction::Status(m) => LoginActionView::Status(m@),
            LoginAction::SaveCredentials(c) => LoginActionView::SaveCredentials(c@),
            LoginAction::OpenBrowser => LoginActionView::OpenBrowser,
            LoginAction::WaitForCallback => LoginActionView::WaitForCallback,
            LoginAction::ExchangeCode(c) => LoginActionView::ExchangeCode(c@),
            LoginAction::Fail(m) => LoginActionView::Fail(m@),
            LoginAction::Done(t) => LoginActionView::Done(*t),
        }
    }
}

/// The state and next action after one login event. A start while a login
/// is under way only reports that one is; every failure, and the arrival of
/// the tokens, ends the login under way.
pub open spec fn login_step(s: BackendState, e: LoginEvent) -> (BackendState, LoginActionView) {
    match e {
        LoginEvent::Start(c) => if login_refused(s) {
            (s, LoginActionView::Status(LOGIN_IN_PROGRESS@))
        } else {
            (begin_login(s), LoginActionView::SaveCredentials(c@))
        },
        LoginEvent::CredentialsSaved(c, r) => match r {
            Ok(_) => (BackendState { client_id: Some(c), ..s }, LoginActionView::OpenBrowser),
            Err(err) => (end_login(s), LoginActionView::Fail("Failed to save client credentials: "@ + err@)),
        },
        LoginEvent::BrowserOpened(r) => match r {
            Ok(_) => (s, LoginActionView::WaitForCallback),
            Err(err) => (end_login(s), LoginActionView::Fail("Failed to open browser: "@ + err@)),
        },
        LoginEvent::CallbackReceived(r) => match r {
            Ok(code) => (s, LoginActionView::ExchangeCode(code@)),
            Err(err) => (end_login(s), LoginActionView::Fail("OAuth callback error: "@ + err@)),
        },
        LoginEvent::TokensReceived(c, r, now) => match r {
            Ok(t) => {
                let s1 = end_login(BackendState { client_id: Some(c), ..with_tokens(s, t, now) });
                (s1, LoginActionView::Done(saved_record(s1)))
            },
            Err(err) => (end_login(s), LoginActionView::Fail("Token exchange failed: "@ + err@)),
        },
    }
}

/// Whether an event ends the login under way: a failure, or the tokens.
pub open spec fn login_finishes(e: LoginEvent) -> bool {
    match e {
        LoginEvent::Start(_) => false,
        LoginEvent::CredentialsSaved(_, r) => r is Err,
        LoginEvent::BrowserOpened(r) => r is Err,
        LoginEvent::CallbackReceived(r) => r is Err,
        LoginEvent::TokensReceived(_, _, _) => true,
    }
}

/// Whether a login event can be taken in: tokens must leave room for their
/// expiry time.
pub open spec fn login_event_ok(e: LoginEvent) -> bool {
    e matches LoginEvent::TokensReceived(_, Ok(t), now) ==> now + t.expires_in <= u64::MAX
}

impl BackendState {
    /// Takes in one event of a login and gives what to do next.
    pub fn login_event(&mut self, event: LoginEvent) -> (action: LoginAction)
        requires
            login_event_ok(event),
        ensures
            *final(self) == login_step(*old(self), event).0,
            action@ == login_step(*old(self), event).1,
    {
        match event {
            LoginEvent::Start(c) => match self.begin_oauth_login() {
                Ok(()) => LoginAction::SaveCredentials(c),
                Err(m) => LoginAction::Status(m),
            },
            LoginEvent::CredentialsSaved(c, r) => match r {
                Ok(()) => {
                    self.client_id = Some(c);
                    LoginAction::OpenBrowser
                },
                Err(err) => {
                    self.end_oauth_login();
                    LoginAction::Fail(concat2("Failed to save client credentials: ", err.as_str()))
                },
            },
            LoginEvent::BrowserOpened(r) => match r {
                Ok(()) => LoginAction::WaitForCallback,
                Err(err) => {
                    self.end_oauth_login();
                    LoginAction::Fail(concat2("Failed to open browser: ", err.as_str()))
                },
            },
            LoginEvent::CallbackReceived(r) => match r {
                Ok(code) => LoginAction::ExchangeCode(code),
                Err(err) => {
                    self.end_oauth_login();
                    LoginAction::Fail(concat2("OAuth callback error: ", err.as_str()))
                },
            },
            LoginEvent::TokensReceived(c, r, now) => match r {
                Ok(t) => {
                    let saved = self.apply_refreshed_tokens(t, now);
                    self.client_id = Some(c);
                    self.end_oauth_login();
                    LoginAction::Done(saved)
                },
                Err(err) => {
                    self.end_oauth_login();
                    LoginAction::Fail(concat2("Token exchange failed: ", err.as_str()))
                },
            },
        }
    }
}

// ------------------------------------------------------------------ devices
/// The index of the first device with an id.
pub open spec fn first_with_id(devices: Seq<PlaybackDevice>) -> Option<int>
    decreases devices.len(),
{
    if devices.len() == 0 {
        None
    } else if devices[0].id is Some {
        Some(0)
    } else {
        match first_with_id(devices.drop_first()) {
            Some(i) => Some(i + 1),
            None => None,
        }
    }
}

proof fn lemma_first_with_id(devices: Seq<PlaybackDevice>)
    ensures
        first_with_id(devices) matches Some(i) ==> 0 <= i < devices.len() && devices[i].id is Some,
    decreases devices.len(),
{
    if devices.len() > 0 && devices[0].id is None {
        lemma_first_with_id(devices.drop_first());
    }
}

/// Makes sure a device plays: nothing to do where one is active; else the
/// first device with an id is the one to transfer playback to; else no
/// device can play.
pub fn choose_playback_device(devices: &Vec<PlaybackDevice>) -> (r: Result<Option<String>, String>)
    ensures
        (exists|i: int| 0 <= i < devices@.len() && devices@[i].is_active) ==> r == Ok::<Option<String>, String>(None),
        !(exists|i: int| 0 <= i < devices@.len() && devices@[i].is_active) ==> match first_with_id(devices@) {
            Some(i) => r == Ok::<Option<String>, String>(Some(devices@[i].id->0)),
            None => r matches Err(m)
                && m@ == "No available Spotify playback device. Open Spotify on a device or use local playback."@,
        },
{
    let mut i: usize = 0;
    while i < devices.len()
        invariant
            i <= devices.len(),
            forall|j: int| 0 <= j < i ==> !devices@[j].is_active,
        decreases devices.len() - i,
    {
        if devices[i].is_active {
            return Ok(None);
        }
        i += 1;
    }
    let mut k: usize = devices.len();
    let mut found: Option<usize> = None;
    // Walk back from the end so that `found` ends at the first id.
    while k > 0
        invariant
            k <= devices.len(),
            forall|j: int| 0 <= j < devices@.len() ==> !devices@[j].is_active,
            match found {
                Some(f) => k <= f < devices.len() && first_with_id(devices@.subrange(k as int, devices@.len() as int)) == Some(f - k),
                None => first_with_id(devices@.subrange(k as int, devices@.len() as int)) is None,
            },
        decreases k,
    {
        k -= 1;
        let ghost tail = devices@.subrange(k as int, devices@.len() as int);
        assert(tail.drop_first() =~= devices@.subrange(k + 1, devices@.len() as int));
        if devices[k].id.is_some() {
            found = Some(k);
        }
    }
    assert(devices@.subrange(0, devices@.len() as int) =~= devices@);
    proof { lemma_first_with_id(devices@); }
    match found {
        Some(f) => match &devices[f].id {
            Some(id) => Ok(Some(id.clone())),
            None => Err(owned("No available Spotify playback device. Open Spotify on a device or use local playback.")),
        },
        None => Err(owned("No available Spotify playback device. Open Spotify on a device or use local playback.")),
    }
}

// ------------------------------------------------------ remote and messages
/// A command for the active Spotify device.
#[derive(Clone, Copy, Debug, PartialEq, Eq, Structural)]
pub enum RemotePlaybackAction {
    Pause,
    Resume,
    Stop,
    Next,
    Previous,
    SetVolume(u8),
}

/// The volume sent to the device: at most 100.
pub fn remote_volume(volume_percent: u8) -> (v: u8)
    ensures
        v == if volume_percent <= 100 { volume_percent } else { 100 },
{
    if volume_percent <= 100 { volume_percent } else { 100 }
}

/// The name of a command in status messages.
pub open spec fn action_label(a: RemotePlaybackAction) -> Seq<char> {
    match a {
        RemotePlaybackAction::Pause => "Pause"@,
        RemotePlaybackAction::Resume => "Resume"@,
        RemotePlaybackAction::Stop => "Stop"@,
        RemotePlaybackAction::Next => "Next"@,
        RemotePlaybackAction::Previous => "Previous"@,
        RemotePlaybackAction::SetVolume(_) => "Set volume"@,
    }
}

/// The status once a command went through: `Playback <label> command sent.`
pub fn command_sent_message(action: RemotePlaybackAction) -> (m: String)
    ensures
        m@ == "Playback "@ + action_label(action) + " command sent."@,
{
    let label = match action {
        RemotePlaybackAction::Pause => "Pause",
        RemotePlaybackAction::Resume => "Resume",
        RemotePlaybackAction::Stop => "Stop",
        RemotePlaybackAction::Next => "Next",
        RemotePlaybackAction::Previous => "Previous",
        RemotePlaybackAction::SetVolume(_) => "Set volume",
    };
    concat3("Playback ", label, " command sent.")
}

/// The status of a finished search: its three counts, and whether artwork
/// is still to come.
pub open spec fn search_message(tracks: nat, artists: nat, albums: nat, loading_artwork: bool) -> Seq<char> {
    "Search complete: "@ + decimal(tracks) + " tracks, "@ + decimal(artists) + " artists, "@
        + decimal(albums) + if loading_artwork { " albums. Loading artwork..."@ } else { " albums."@ }
}

/// The status of a finished search.
pub fn search_complete_message(tracks: usize, artists: usize, albums: usize, loading_artwork: bool) -> (m: String)
    ensures
        m@ == search_message(tracks as nat, artists as nat, albums as nat, loading_artwork),
{
    let mut m = String::from_str("Search complete: ");
    let t = u64_to_decimal(tracks as u64);
    m.append(t.as_str());
    m.append(" tracks, ");
    let a = u64_to_decimal(artists as u64);
    m.append(a.as_str());
    m.append(" artists, ");
    let b = u64_to_decimal(albums as u64);
    m.append(b.as_str());
    if loading_artwork {
        m.append(" albums. Loading artwork...");
    } else {
        m.append(" albums.");
    }
    m
}

/// The status once a playlist's tracks arrived.
pub fn playlist_loaded_message(count: usize) -> (m: String)
    ensures
        m@ == "Loaded "@ + decimal(count as nat) + " tracks from playlist."@,
{
    let n = u64_to_decimal(count as u64);
    concat3("Loaded ", n.as_str(), " tracks from playlist.")
}

/// The name shown for the signed-in user: the profile's display name, else
/// `unknown`.
pub fn login_username(display_name: Option<String>) -> (name: String)
    ensures
        name@ == match display_name {
            Some(d) => d@,
            None => "unknown"@,
        },
{
    match display_name {
        Some(d) => d,
        None => owned("unknown"),
    }
}

/// The key the avatar image is stored under, fresh for each login time.
pub fn profile_avatar_key(now_secs: u64) -> (key: String)
    ensures
        key@ == "spotify-profile-avatar-"@ + decimal(now_secs as nat),
{
    let n = u64_to_decimal(now_secs);
    concat2("spotify-profile-avatar-", n.as_str())
}

/// The key the artwork of the playing track is stored under.
pub fn playback_artwork_key(url: &str) -> (key: String)
    ensures
        key@ == "playback-artwork:"@ + url@,
{
    concat2("playback-artwork:", url)
}

// ------------------------------------------------------------------ startup
/// What startup does with a saved login.
#[derive(Debug)]
pub enum StartupCheck {
    /// Refresh the token quietly with these credentials.
    RefreshSilently { client_id: String, refresh_token: String },
    /// Ask the Web API whether the saved token still works.
    ValidateToken,
    /// A refresh is due but cannot be made: nothing more to do.
    Nothing,
}

impl BackendState {
    /// What startup does at time `now` once a saved login was taken up: a
    /// due refresh where it can be made (nothing where it cannot), else a
    /// check of the token.
    pub fn startup_check(&self, now: u64) -> (c: StartupCheck)
        ensures
            !needs_refresh(*self, now) ==> c is ValidateToken,
            needs_refresh(*self, now) && self.client_id is Some ==> (c matches StartupCheck::RefreshSilently { client_id, refresh_token }
                && client_id == self.client_id->0 && refresh_token == self.refresh_token->0),
            needs_refresh(*self, now) && self.client_id is None ==> c is Nothing,
    {
        match self.refresh_plan(now) {
            RefreshPlan::UpToDate => StartupCheck::ValidateToken,
            RefreshPlan::Refresh { client_id, refresh_token } => StartupCheck::RefreshSilently { client_id, refresh_token },
            RefreshPlan::Missing(_) => StartupCheck::Nothing,
        }
    }
}

/// The status after a saved token was found not to work.
pub fn invalid_saved_token_message() -> (m: String)
    ensures
        m@ == "Saved token is invalid. Please log in again."@,
{
    owned("Saved token is invalid. Please log in again.")
}

// ----------------------------------------------------------------- polling
/// One tick of the progress poller on the local player: a finished track
/// (the mark is consumed), then the progress.
pub fn poll_local_playback(handle: &mut LocalPlaybackHandle) -> (events: Vec<PlaybackEvent>)
    ensures
        *final(handle) == crate::playback::with_finished(*old(handle), false),
        old(handle).track_finished ==> events@.len() == 2 && events@[0] is LocalTrackEnded,
        !old(handle).track_finished ==> events@.len() == 1,
        events@.last() == (PlaybackEvent::Progress {
            position_ms: old(handle).position_ms,
            duration_ms: old(handle).duration_ms,
            is_playing: old(handle).is_playing,
        }),
{
    let mut events: Vec<PlaybackEvent> = Vec::new();
    if handle.consume_track_finished() {
        events.push(PlaybackEvent::LocalTrackEnded);
    }
    match handle.playback_progress() {
        Some((position_ms, duration_ms, is_playing)) => {
            events.push(PlaybackEvent::Progress { position_ms, duration_ms, is_playing });
        },
        None => {},
    }
    events
}

// -------------------------------------------------------------------- laws
/// Tokens that live for more than the refresh margin need no refresh at the
/// time they arrive, and a response without a refresh token keeps the one
/// the session had.
pub proof fn law_fresh_tokens_need_no_refresh(s: BackendState, t: TokenResponse, now: u64)
    requires
        now + t.expires_in <= u64::MAX,
        t.expires_in > REFRESH_MARGIN_SECS,
    ensures
        !needs_refresh(with_tokens(s, t, now), now),
        t.refresh_token is None ==> with_tokens(s, t, now).refresh_token == s.refresh_token,
        with_tokens(s, t, now).spotify.access_token == Some(t.access_token),
{
}

/// What is saved after new tokens arrive gives the same session back when
/// it is taken up again, in any state: the same token, refresh token and
/// expiry, so the refresh falls due at the same time.
pub proof fn law_saved_tokens_restore_session(s: BackendState, t: TokenResponse, now: u64, other: BackendState, later: u64)
    requires
        now + t.expires_in <= u64::MAX,
    ensures
        ({
            let s1 = with_tokens(s, t, now);
            let r = restored(other, saved_record(s1), None);
            &&& r.spotify == s1.spotify
            &&& r.refresh_token == s1.refresh_token
            &&& r.token_expires_at == s1.token_expires_at
            &&& needs_refresh(r, later) == needs_refresh(s1, later)
        }),
{
}

/// Without a refresh token no refresh is ever due: after logging out, and
/// for a session that never had one.
pub proof fn law_no_refresh_without_refresh_token(s: BackendState, now: u64)
    requires
        s.refresh_token is None,
    ensures
        !needs_refresh(s, now),
{
}

/// One login at a time: once a login has begun, every further request to
/// begin one is refused (and changes nothing), whatever other requests or
/// resets come in between, until the login ends; after it ends a new login
/// begins.
pub proof fn law_one_login_at_a_time(s: BackendState, steps: Seq<LoginStep>)
    ensures
        !login_refused(s) ==> begin_login(s).oauth_in_progress,
        in_progress_after(begin_login(s), steps),
        login_refused(begin_login(s)),
        begin_login(begin_login(s)) == begin_login(s),
        !login_refused(end_login(begin_login(s))),
        end_login(begin_login(s)) == (BackendState { oauth_in_progress: false, ..s }),
    decreases steps.len(),
{
    if steps.len() > 0 {
        assert(begin_login(begin_login(s)) == begin_login(s));
        law_one_login_at_a_time(s, steps.drop_first());
    }
}

/// Every way out of a login clears the mark that one is under way: a failure
/// to save the client id, to open the browser, to receive the callback or to
/// exchange the code, and the arrival of the tokens. A login asked for while
/// one is under way changes nothing and only reports that one is (nothing is
/// saved, no browser opens); one asked for otherwise is marked under way and
/// first saves the client id. The steps in between keep the mark.
pub proof fn law_login_exits_clear_mark(s: BackendState, e: LoginEvent)
    ensures
        login_finishes(e) ==> !login_step(s, e).0.oauth_in_progress,
        login_finishes(e) ==> (login_step(s, e).1 is Fail || login_step(s, e).1 is Done),
        (e is Start && login_refused(s)) ==> login_step(s, e) == (s, LoginActionView::Status(LOGIN_IN_PROGRESS@)),
        !login_refused(s) ==> (match e {
            LoginEvent::Start(c) => login_step(s, e) == (begin_login(s), LoginActionView::SaveCredentials(c@)),
            _ => true,
        }),
        (!login_finishes(e) && !(e is Start)) ==> login_step(s, e).0.oauth_in_progress == s.oauth_in_progress,
{
}

/// A refresh that is due stays due as time goes on.
pub proof fn law_refresh_stays_due(s: BackendState, now: u64, later: u64)
    requires
        now <= later,
        needs_refresh(s, now),
    ensures
        needs_refresh(s, later),
{
}

} // verus!
