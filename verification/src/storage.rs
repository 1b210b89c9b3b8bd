//! What the login keeps between runs, and which client id the login uses.
use vstd::prelude::*;

use crate::text::{is_blank, owned, trim, trim_str};

verus! {

/// The client id the application ships with.
pub const DEFAULT_SPOTIFY_CLIENT_ID: &'static str = "1db90c8f99ab424cb22c69af1ca9c242";

/// The directory, under the user's configuration directory, of the saved files.
pub const CONFIG_DIR_NAME: &'static str = "audia";

/// The file of the saved tokens.
pub const TOKEN_FILE_NAME: &'static str = "token.json";

/// The file of the saved client id.
pub const CLIENT_CREDENTIALS_FILE_NAME: &'static str = "client_credentials.json";

/// The tokens kept between runs.
#[derive(Debug)]
pub struct TokenStore {
    pub access_token: String,
    pub refresh_token: Option<String>,
    pub expires_at: Option<u64>,
}

/// The client id kept between runs.
#[derive(Debug)]
pub struct ClientCredentialStore {
    pub client_id: String,
}

/// The value a setting gives where it holds more than whitespace: the
/// setting trimmed.
pub open spec fn usable(s: Option<Seq<char>>) -> Option<Seq<char>> {
    match s {
        Some(v) => if trim(v).len() != 0 { Some(trim(v)) } else { None },
        None => None,
    }
}

/// The client id to log in with: the one built in at compile time, then the
/// one from the environment, each trimmed and where not blank; then the
/// shipped default where it is not empty; then a saved one that is not blank.
pub open spec fn client_id_choice(
    compiled: Option<Seq<char>>,
    from_env: Option<Seq<char>>,
    default: Seq<char>,
    saved: Option<Seq<char>>,
) -> Option<Seq<char>> {
    if usable(compiled) is Some {
        usable(compiled)
    } else if usable(from_env) is Some {
        usable(from_env)
    } else if default.len() != 0 {
        Some(default)
    } else {
        match saved {
            Some(v) => if trim(v).len() != 0 { Some(v) } else { None },
            None => None,
        }
    }
}

fn usable_setting(s: Option<&str>) -> (r: Option<String>)
    ensures
        match r {
            Some(v) => usable(match s { Some(t) => Some(t@), None => None }) == Some(v@),
            None => usable(match s { Some(t) => Some(t@), None => None }) is None,
        },
{
    match s {
        Some(t) => {
            let v = trim_str(t);
            if is_blank(v.as_str()) {
                proof { crate::text::lemma_trim_idempotent(t@); }
                None
            } else {
                proof { crate::text::lemma_trim_idempotent(t@); }
                Some(v)
            }
        },
        None => None,
    }
}

/// Chooses the client id (see `client_id_choice`).
pub fn choose_client_id(
    compiled: Option<&str>,
    from_env: Option<&str>,
    default: &str,
    saved: Option<&str>,
) -> (r: Option<String>)
    ensures
        match r {
            Some(v) => client_id_choice(
                match compiled { Some(t) => Some(t@), None => None },
                match from_env { Some(t) => Some(t@), None => None },
                default@,
                match saved { Some(t) => Some(t@), None => None },
            ) == Some(v@),
            None => client_id_choice(
                match compiled { Some(t) => Some(t@), None => None },
                match from_env { Some(t) => Some(t@), None => None },
                default@,
                match saved { Some(t) => Some(t@), None => None },
            ) is None,
        },
{
    if let Some(v) = usable_setting(compiled) {
        return Some(v);
    }
    if let Some(v) = usable_setting(from_env) {
        return Some(v);
    }
    if crate::text::chars_of(default).len() != 0 {
        return Some(owned(default));
    }
    match saved {
        Some(s) => if is_blank(s) { None } else { Some(owned(s)) },
        None => None,
    }
}

/// The client id the login uses, given the compile-time and environment
/// settings and a saved credential: since the shipped default is not empty,
/// a setting that is not blank, else the default.
pub fn configured_client_id(
    compiled: Option<&str>,
    from_env: Option<&str>,
    saved: Option<&str>,
) -> (r: Option<String>)
    ensures
        match r {
            Some(v) => client_id_choice(
                match compiled { Some(t) => Some(t@), None => None },
                match from_env { Some(t) => Some(t@), None => None },
                DEFAULT_SPOTIFY_CLIENT_ID@,
                match saved { Some(t) => Some(t@), None => None },
            ) == Some(v@),
            None => client_id_choice(
                match compiled { Some(t) => Some(t@), None => None },
                match from_env { Some(t) => Some(t@), None => None },
                DEFAULT_SPOTIFY_CLIENT_ID@,
                match saved { Some(t) => Some(t@), None => None },
            ) is None,
        },
{
    choose_client_id(compiled, from_env, DEFAULT_SPOTIFY_CLIENT_ID, saved)
}

} // verus!
