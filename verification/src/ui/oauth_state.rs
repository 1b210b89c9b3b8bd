//! The login dialog and the signed-in user shown in the header.
use vstd::prelude::*;

use crate::messages::{clone_opt_string, opt_view};
use crate::text::{concat3, is_blank, owned, trim, trim_str};
use crate::ui::events::OAuthEvents;

verus! {

/// Work that the shell carries out after the state changed.
#[derive(Debug)]
pub enum OAuthAction {
    RefreshUserPlaylists,
    ResetLogin,
    StartOAuthLogin(String),
    RefreshAccessToken,
}

/// The login part of the interface.
#[derive(Debug)]
pub struct OAuthState {
    pub status: String,
    pub auth_valid: bool,
    pub show_login_modal: bool,
    pub login_client_id_input: String,
    pub auth_username: String,
    pub profile_image_key: Option<String>,
}

/// The mathematical value of an `OAuthState`.
#[verifier::ext_equal]
pub struct OAuthModel {
    pub status: Seq<char>,
    pub auth_valid: bool,
    pub show_login_modal: bool,
    pub client_id_input: Seq<char>,
    pub username: Seq<char>,
    pub profile_image_key: Option<Seq<char>>,
}

impl View for OAuthState {
    type V = OAuthModel;

    open spec fn view(&self) -> OAuthModel {
        OAuthModel {
            status: self.status@,
            auth_valid: self.auth_valid,
            show_login_modal: self.show_login_modal,
            client_id_input: self.login_client_id_input@,
            username: self.auth_username@,
            profile_image_key: opt_view(self.profile_image_key),
        }
    }
}

/// The mathematical value of an `OAuthAction`.
pub enum OAuthActionView {
    RefreshUserPlaylists,
    ResetLogin,
    StartOAuthLogin(Seq<char>),
    RefreshAccessToken,
}

impl View for OAuthAction {
    type V = OAuthActionView;

    open spec fn view(&self) -> OAuthActionView {
        match self {
            OAuthAction::RefreshUserPlaylists => OAuthActionView::RefreshUserPlaylists,
            OAuthAction::ResetLogin => OAuthActionView::ResetLogin,
            OAuthAction::StartOAuthLogin(c) => OAuthActionView::StartOAuthLogin(c@),
            OAuthAction::RefreshAccessToken => OAuthActionView::RefreshAccessToken,
        }
    }
}

/// The client id a login uses: the typed one, else the configured one.
pub open spec fn login_client_id(typed: Seq<char>, configured: Option<Seq<char>>) -> Option<Seq<char>> {
    if trim(typed).len() == 0 { configured } else { Some(trim(typed)) }
}

/// The effect of every login event; `configured` is the client id the
/// installation provides, if any.
pub open spec fn oauth_step(m: OAuthModel, e: OAuthEvents, configured: Option<Seq<char>>) -> (OAuthModel, Seq<OAuthActionView>) {
    match e {
        OAuthEvents::BrowserOpened => (OAuthModel { status: "Browser opened \u{2014} complete login in your browser."@, ..m }, Seq::empty()),
        OAuthEvents::LoginComplete { username, profile_image_key } => (OAuthModel {
            auth_valid: true,
            show_login_modal: false,
            username: username@,
            profile_image_key: opt_view(profile_image_key),
            status: "Logged in as "@ + username@ + "."@,
            ..m
        }, seq![OAuthActionView::RefreshUserPlaylists]),
        OAuthEvents::LoggedOut => (OAuthModel {
            auth_valid: false,
            show_login_modal: true,
            username: Seq::empty(),
            profile_image_key: None,
            status: "Logged out. Please log in again."@,
            ..m
        }, Seq::empty()),
        OAuthEvents::OpenLoginModal => (OAuthModel { show_login_modal: true, ..m }, Seq::empty()),
        OAuthEvents::CloseLoginModal => (OAuthModel { show_login_modal: false, ..m }, Seq::empty()),
        OAuthEvents::ResetLogin => (OAuthModel { status: "Resetting saved login..."@, ..m }, seq![OAuthActionView::ResetLogin]),
        OAuthEvents::SetLoginClientId(v) => (OAuthModel { client_id_input: v@, ..m }, Seq::empty()),
        OAuthEvents::StartOAuthLogin => match login_client_id(m.client_id_input, configured) {
            Some(c) => (OAuthModel { status: "Opening Spotify authorization in browser..."@, ..m },
                seq![OAuthActionView::StartOAuthLogin(c)]),
            None => (OAuthModel {
                status: "No Spotify client ID is configured. Set AUDIA_SPOTIFY_CLIENT_ID or ship a saved app config."@,
                ..m
            }, Seq::empty()),
        },
        OAuthEvents::RefreshToken => (OAuthModel { status: "Refreshing access token..."@, ..m }, seq![OAuthActionView::RefreshAccessToken]),
    }
}

impl OAuthState {
    /// Signed out, dialog closed.
    pub fn new() -> (s: Self)
        ensures
            s@ == (OAuthModel {
                status: Seq::empty(),
                auth_valid: false,
                show_login_modal: false,
                client_id_input: Seq::empty(),
                username: Seq::empty(),
                profile_image_key: None,
            }),
    {
        OAuthState {
            status: String::new(),
            auth_valid: false,
            show_login_modal: false,
            login_client_id_input: String::new(),
            auth_username: String::new(),
            profile_image_key: None,
        }
    }

    /// Handles one login event and returns the work it asks for.
    pub fn event(&mut self, event: &OAuthEvents, configured_client_id: Option<String>) -> (actions: Vec<OAuthAction>)
        ensures
            final(self)@ == oauth_step(old(self)@, *event, opt_view(configured_client_id)).0,
            actions@.map_values(|a: OAuthAction| a@) == oauth_step(old(self)@, *event, opt_view(configured_client_id)).1,
    {
        let ghost m = self@;
        let actions: Vec<OAuthAction> = match event {
            OAuthEvents::BrowserOpened => {
                self.status = owned("Browser opened \u{2014} complete login in your browser.");
                Vec::new()
            },
            OAuthEvents::LoginComplete { username, profile_image_key } => {
                self.auth_valid = true;
                self.show_login_modal = false;
                self.auth_username = username.clone();
                self.profile_image_key = clone_opt_string(profile_image_key);
                self.status = concat3("Logged in as ", username.as_str(), ".");
                vec![OAuthAction::RefreshUserPlaylists]
            },
            OAuthEvents::LoggedOut => {
                self.auth_valid = false;
                self.show_login_modal = true;
                self.auth_username = String::new();
                self.profile_image_key = None;
                self.status = owned("Logged out. Please log in again.");
                Vec::new()
            },
            OAuthEvents::OpenLoginModal => {
                self.show_login_modal = true;
                Vec::new()
            },
            OAuthEvents::CloseLoginModal => {
                self.show_login_modal = false;
                Vec::new()
            },
            OAuthEvents::ResetLogin => {
                self.status = owned("Resetting saved login...");
                vec![OAuthAction::ResetLogin]
            },
            OAuthEvents::SetLoginClientId(v) => {
                self.login_client_id_input = v.clone();
                Vec::new()
            },
            OAuthEvents::StartOAuthLogin => {
                let typed = trim_str(self.login_client_id_input.as_str());
                proof { crate::text::lemma_trim_idempotent(self.login_client_id_input@); }
                let client = if is_blank(typed.as_str()) { configured_client_id } else { Some(typed) };
                match client {
                    Some(c) => {
                        self.status = owned("Opening Spotify authorization in browser...");
                        vec![OAuthAction::StartOAuthLogin(c)]
                    },
                    None => {
                        self.status = owned("No Spotify client ID is configured. Set AUDIA_SPOTIFY_CLIENT_ID or ship a saved app config.");
                        Vec::new()
                    },
                }
            },
            OAuthEvents::RefreshToken => {
                self.status = owned("Refreshing access token...");
                vec![OAuthAction::RefreshAccessToken]
            },
        };
        assert(self@ =~= oauth_step(m, *event, opt_view(configured_client_id)).0);
        assert(actions@.map_values(|a: OAuthAction| a@) =~= oauth_step(m, *event, opt_view(configured_client_id)).1);
        actions
    }
}

/// A typed client id wins over the configured one; a blank one defers to it.
pub proof fn law_typed_client_id_wins(typed: Seq<char>, configured: Option<Seq<char>>)
    ensures
        trim(typed).len() > 0 ==> login_client_id(typed, configured) == Some(trim(typed)),
        trim(typed).len() == 0 ==> login_client_id(typed, configured) == configured,
{
}

} // verus!
