//! Authorization-code login with PKCE: the state token, the code verifier and
//! its challenge, the authorization URL, the handling of the browser's
//! redirect to the local callback, and the token request forms.
use base64::Engine;
use rand::distributions::DistString;
use sha2::Digest;
use vstd::prelude::*;
use vstd::string::{StringExecFns, StringSliceAdditionalSpecFns};
use vstd::utf8::{decode_utf8, encode_utf8, valid_utf8};

use crate::text::{
    concat2, decimal, owned, split_char, split_on_char, split_whitespace_tokens, strip_prefix,
    strip_prefix_str, u64_to_decimal, u64_to_decimal_padded, ws_tokens, zero_pad,
};

verus! {

/// Where Spotify sends the browser back to after the user decides.
pub const REDIRECT_URI: &'static str = "http://127.0.0.1:8888/callback";

/// `REDIRECT_URI` percent-encoded for use inside a query string.
pub const REDIRECT_URI_ENCODED: &'static str = "http%3A%2F%2F127.0.0.1%3A8888%2Fcallback";

/// The local port the callback listener binds.
pub const CALLBACK_PORT: u16 = 8888;

/// The scopes asked for, already joined by encoded spaces.
pub const SCOPES: &'static str = "user-read-private%20user-modify-playback-state%20streaming%20user-read-playback-state%20playlist-read-private%20playlist-read-collaborative";

// ---------------------------------------------------------------- the clock
#[verifier::external_type_specification]
#[verifier::external_body]
pub struct ExSystemTime(std::time::SystemTime);

/// `SystemTime::now`: the system clock's current reading (nothing is claimed
/// of it).
#[verifier::external_body]
fn system_time_now() -> std::time::SystemTime {
    std::time::SystemTime::now()
}

/// `SystemTime::duration_since(UNIX_EPOCH)`, with `None` for a clock that
/// reads before the epoch (nothing is claimed of the duration).
#[verifier::external_body]
fn since_unix_epoch(t: &std::time::SystemTime) -> Option<std::time::Duration> {
    t.duration_since(std::time::UNIX_EPOCH).ok()
}

/// `Duration::subsec_nanos`: the fractional part of the duration in
/// nanoseconds, which the documentation bounds below one billion.
#[verifier::external_body]
fn subsec_nanos(d: &std::time::Duration) -> (n: u32)
    ensures
        n < 1_000_000_000,
{
    d.subsec_nanos()
}

/// `Duration::as_secs`: the whole seconds of the duration (nothing more is
/// claimed of it).
#[verifier::external_body]
fn whole_secs(d: &std::time::Duration) -> u64 {
    d.as_secs()
}

/// The whole seconds since the UNIX epoch, 0 for a clock before the epoch.
pub fn unix_now_secs() -> (secs: u64) {
    let now = system_time_now();
    match since_unix_epoch(&now) {
        Some(d) => whole_secs(&d),
        None => 0,
    }
}

// ---------------------------------------------------------- state and PKCE
/// The state token for a nanosecond reading: `audia` and the reading as ten
/// zero-padded digits.
pub open spec fn state_token(nanos: nat) -> Seq<char> {
    "audia"@ + zero_pad(decimal(nanos), 10)
}

/// The state token for the nanosecond reading `nanos`.
pub fn state_token_from_nanos(nanos: u32) -> (s: String)
    ensures
        s@ == state_token(nanos as nat),
{
    let digits = u64_to_decimal_padded(nanos as u64, 10);
    concat2("audia", digits.as_str())
}

/// A fresh state token, from the sub-second part of the clock (a fixed
/// reading where the clock is before the epoch).
pub fn generate_state() -> (s: String)
    ensures
        exists|n: u32| n < 1_000_000_000 && s@ == state_token(n as nat),
{
    let now = system_time_now();
    let nanos: u32 = match since_unix_epoch(&now) {
        Some(d) => subsec_nanos(&d),
        None => 0xc0ffee,
    };
    let s = state_token_from_nanos(nanos);
    assert(nanos < 1_000_000_000 && s@ == state_token(nanos as nat));
    s
}

/// An ASCII letter or digit.
pub open spec fn is_ascii_alphanumeric(c: char) -> bool {
    (48 <= c as u32 <= 57) || (65 <= c as u32 <= 90) || (97 <= c as u32 <= 122)
}

/// rand's `Alphanumeric.sample_string(&mut thread_rng(), len)`: `len`
/// characters, each drawn from `A-Z`, `a-z`, `0-9` (`append_string` extends
/// by `take(len)` of an endless sample stream). Which ones is chance.
#[verifier::external_body]
fn random_alphanumeric(len: usize) -> (s: String)
    ensures
        s@.len() == len,
        forall|i: int| 0 <= i < len ==> is_ascii_alphanumeric(#[trigger] s@[i]),
{
    rand::distributions::Alphanumeric.sample_string(&mut rand::thread_rng(), len)
}

/// A fresh PKCE code verifier: 64 random ASCII letters and digits.
pub fn generate_code_verifier() -> (s: String)
    ensures
        s@.len() == 64,
        forall|i: int| 0 <= i < 64 ==> is_ascii_alphanumeric(#[trigger] s@[i]),
{
    random_alphanumeric(64)
}

/// The SHA-256 digest of a byte string.
pub uninterp spec fn sha256(data: Seq<u8>) -> Seq<u8>;

/// `Sha256::digest` of sha2: the SHA-256 digest of `data`, 32 bytes long
/// (the hash's output size).
#[verifier::external_body]
fn sha256_digest(data: &[u8]) -> (d: Vec<u8>)
    ensures
        d@ == sha256(data@),
        d@.len() == 32,
{
    sha2::Sha256::digest(data).to_vec()
}

/// The character of the URL-safe base64 alphabet for a six-bit value.
pub open spec fn b64_url_char(v: int) -> char {
    if v < 26 {
        (65 + v) as char
    } else if v < 52 {
        (97 + v - 26) as char
    } else if v < 62 {
        (48 + v - 52) as char
    } else if v == 62 {
        '-'
    } else {
        '_'
    }
}

/// URL-safe base64 without padding: each three bytes as four characters, a
/// trailing one or two bytes as two or three characters, spare bits zero.
pub open spec fn base64_url_unpadded(b: Seq<u8>) -> Seq<char>
    decreases b.len(),
{
    if b.len() == 0 {
        Seq::empty()
    } else {
        let x0 = b[0] as int;
        let x1 = if b.len() > 1 { b[1] as int } else { 0 };
        let x2 = if b.len() > 2 { b[2] as int } else { 0 };
        if b.len() == 1 {
            seq![b64_url_char(x0 / 4), b64_url_char((x0 % 4) * 16)]
        } else if b.len() == 2 {
            seq![
                b64_url_char(x0 / 4),
                b64_url_char((x0 % 4) * 16 + x1 / 16),
                b64_url_char((x1 % 16) * 4),
            ]
        } else {
            seq![
                b64_url_char(x0 / 4),
                b64_url_char((x0 % 4) * 16 + x1 / 16),
                b64_url_char((x1 % 16) * 4 + x2 / 64),
                b64_url_char(x2 % 64),
            ] + base64_url_unpadded(b.subrange(3, b.len() as int))
        }
    }
}

/// Unpadded base64 of `n` bytes has `(4n + 2) / 3` characters.
proof fn lemma_base64_url_unpadded_len(b: Seq<u8>)
    ensures
        base64_url_unpadded(b).len() == (4 * b.len() + 2) / 3,
    decreases b.len(),
{
    if b.len() > 2 {
        lemma_base64_url_unpadded_len(b.subrange(3, b.len() as int));
    }
}

/// `URL_SAFE_NO_PAD.encode` of base64: the URL-safe alphabet (`-` and `_`
/// for 62 and 63) and no `=` padding.
#[verifier::external_body]
fn base64_url_no_pad(bytes: &[u8]) -> (s: String)
    ensures
        s@ == base64_url_unpadded(bytes@),
{
    base64::engine::general_purpose::URL_SAFE_NO_PAD.encode(bytes)
}

/// The S256 challenge of a code verifier: the unpadded URL-safe base64 of
/// the SHA-256 digest of its UTF-8 bytes.
pub fn code_challenge(code_verifier: &str) -> (s: String)
    ensures
        s@ == base64_url_unpadded(sha256(code_verifier.spec_bytes())),
        s@.len() == 43,
{
    let digest = sha256_digest(code_verifier.as_bytes());
    proof { lemma_base64_url_unpadded_len(digest@); }
    base64_url_no_pad(digest.as_slice())
}

/// The authorization page for a client, state token and challenge.
pub open spec fn auth_url_spec(client_id: Seq<char>, state: Seq<char>, challenge: Seq<char>) -> Seq<char> {
    "https://accounts.spotify.com/authorize?client_id="@ + client_id
        + "&response_type=code&redirect_uri="@ + REDIRECT_URI_ENCODED@
        + "&scope="@ + SCOPES@
        + "&state="@ + state
        + "&code_challenge_method=S256&code_challenge="@ + challenge
}

/// The authorization page the browser is sent to.
pub fn auth_url(client_id: &str, state: &str, code_challenge: &str) -> (url: String)
    ensures
        url@ == auth_url_spec(client_id@, state@, code_challenge@),
{
    let mut url = String::from_str("https://accounts.spotify.com/authorize?client_id=");
    url.append(client_id);
    url.append("&response_type=code&redirect_uri=");
    url.append(REDIRECT_URI_ENCODED);
    url.append("&scope=");
    url.append(SCOPES);
    url.append("&state=");
    url.append(state);
    url.append("&code_challenge_method=S256&code_challenge=");
    url.append(code_challenge);
    url
}

// ------------------------------------------------------------ the callback
/// The value of a hexadecimal digit byte (either case).
pub open spec fn hex_value(b: u8) -> Option<int> {
    if 48 <= b <= 57 {
        Some(b - 48)
    } else if 65 <= b <= 70 {
        Some(b - 55)
    } else if 97 <= b <= 102 {
        Some(b - 87)
    } else {
        None
    }
}

/// Percent-decoding of bytes: `%` and two hex digits become that byte; any
/// other byte, a `%` without two hex digits after it included, stays; `+`
/// is not turned into a space.
pub open spec fn percent_decoded(b: Seq<u8>) -> Seq<u8>
    decreases b.len(),
{
    if b.len() == 0 {
        Seq::empty()
    } else if b[0] == 37 && b.len() >= 3 && hex_value(b[1]) is Some && hex_value(b[2]) is Some {
        seq![(hex_value(b[1])->0 * 16 + hex_value(b[2])->0) as u8] + percent_decoded(b.subrange(3, b.len() as int))
    } else {
        seq![b[0]] + percent_decoded(b.subrange(1, b.len() as int))
    }
}

/// The text a percent-encoded value stands for, where its decoded bytes
/// are valid UTF-8.
pub open spec fn decoded_text(raw: Seq<char>) -> Option<Seq<char>> {
    let bytes = percent_decoded(encode_utf8(raw));
    if valid_utf8(bytes) {
        Some(decode_utf8(bytes))
    } else {
        None
    }
}

#[verifier::external_type_specification]
#[verifier::external_body]
pub struct ExFromUtf8Error(std::string::FromUtf8Error);

/// `urlencoding::decode`: percent-decodes the bytes of `s` (`decode_binary`:
/// `%` with two hex digits of either case becomes that byte, everything else
/// is copied) and fails exactly where the result is not valid UTF-8
/// (`String::from_utf8`).
#[verifier::external_body]
fn percent_decode(s: &str) -> (r: Result<String, std::string::FromUtf8Error>)
    ensures
        match r {
            Ok(t) => decoded_text(s@) == Some(t@),
            Err(_) => decoded_text(s@) is None,
        },
{
    urlencoding::decode(s).map(|t| t.into_owned())
}

/// The message of a UTF-8 decoding error (`Display` of `FromUtf8Error`);
/// nothing is claimed of its text.
#[verifier::external_body]
fn utf8_error_text(e: &std::string::FromUtf8Error) -> String {
    e.to_string()
}

/// Which parameter of the callback a query pair carries.
#[derive(Clone, Copy, Debug, PartialEq, Eq, Structural)]
pub enum CallbackField {
    Code,
    State,
    Error,
}

/// The field a query pair sets and its raw (still encoded) value: by the
/// first of the prefixes `code=`, `state=`, `error=` that it starts with.
pub open spec fn field_of(pair: Seq<char>) -> Option<(CallbackField, Seq<char>)> {
    if strip_prefix(pair, "code="@) is Some {
        Some((CallbackField::Code, strip_prefix(pair, "code="@)->0))
    } else if strip_prefix(pair, "state="@) is Some {
        Some((CallbackField::State, strip_prefix(pair, "state="@)->0))
    } else if strip_prefix(pair, "error="@) is Some {
        Some((CallbackField::Error, strip_prefix(pair, "error="@)->0))
    } else {
        None
    }
}

/// The path of an HTTP request line (its second token), `/` where there is none.
pub open spec fn request_path(line: Seq<char>) -> Seq<char> {
    let t = ws_tokens(line);
    if t.len() > 1 { t[1] } else { "/"@ }
}

/// The query of the request path: what follows its first `?`, up to a second one.
pub open spec fn request_query(line: Seq<char>) -> Seq<char> {
    let parts = split_char(request_path(line), '?');
    if parts.len() > 1 { parts[1] } else { Seq::empty() }
}

/// The `&`-separated pairs of the request's query.
pub open spec fn query_pairs(line: Seq<char>) -> Seq<Seq<char>> {
    split_char(request_query(line), '&')
}

/// The decoded code, state and error of the pairs read in order, the last
/// of each winning; or the field of the first pair whose value does not
/// decode.
pub open spec fn scan_pairs(pairs: Seq<Seq<char>>) -> Result<
    (Option<Seq<char>>, Option<Seq<char>>, Option<Seq<char>>),
    CallbackField,
>
    decreases pairs.len(),
{
    if pairs.len() == 0 {
        Ok((None, None, None))
    } else {
        match scan_pairs(pairs.drop_last()) {
            Err(f) => Err(f),
            Ok((c, s, e)) => match field_of(pairs.last()) {
                None => Ok((c, s, e)),
                Some((f, raw)) => match decoded_text(raw) {
                    None => Err(f),
                    Some(v) => match f {
                        CallbackField::Code => Ok((Some(v), s, e)),
                        CallbackField::State => Ok((c, Some(v), e)),
                        CallbackField::Error => Ok((c, s, Some(v))),
                    },
                },
            },
        }
    }
}

/// The parameters the redirect carried.
#[derive(Debug)]
pub struct CallbackQuery {
    pub code: Option<String>,
    pub state: Option<String>,
    pub error: Option<String>,
}

/// The start of the message for a value of `f` that does not decode.
pub open spec fn decode_failure_prefix(f: CallbackField) -> Seq<char> {
    match f {
        CallbackField::Code => "Failed to decode OAuth code: "@,
        CallbackField::State => "Failed to decode OAuth state: "@,
        CallbackField::Error => "Failed to decode OAuth error: "@,
    }
}

fn classify_pair(pair: &str) -> (r: Option<(CallbackField, String)>)
    ensures
        match r {
            Some((f, v)) => field_of(pair@) == Some((f, v@)),
            None => field_of(pair@) is None,
        },
{
    if let Some(v) = strip_prefix_str(pair, "code=") {
        Some((CallbackField::Code, v))
    } else if let Some(v) = strip_prefix_str(pair, "state=") {
        Some((CallbackField::State, v))
    } else if let Some(v) = strip_prefix_str(pair, "error=") {
        Some((CallbackField::Error, v))
    } else {
        None
    }
}

/// Reads the code, state and error out of the callback's request line
/// (`GET /callback?code=..&state=.. HTTP/1.1`). Fails at the first value
/// that does not decode, with a message naming its field.
pub fn parse_callback_request(request_line: &str) -> (r: Result<CallbackQuery, String>)
    ensures
        match scan_pairs(query_pairs(request_line@)) {
            Ok((c, s, e)) => r matches Ok(q) && opt_chars(q.code) == c && opt_chars(q.state) == s
                && opt_chars(q.error) == e,
            Err(f) => r matches Err(msg) && exists|t: Seq<char>| msg@ == decode_failure_prefix(f) + t,
        },
{
    let tokens = split_whitespace_tokens(request_line);
    let path: String = if tokens.len() > 1 { tokens[1].clone() } else { owned("/") };
    assert(path@ == request_path(request_line@)) by {
        if tokens.len() > 1 {
            assert(tokens@.map_values(|p: String| p@)[1] == tokens@[1]@);
        }
    }
    let parts = split_on_char(path.as_str(), '?');
    let query: String = if parts.len() > 1 { parts[1].clone() } else { owned("") };
    assert(query@ == request_query(request_line@)) by {
        if parts.len() > 1 {
            assert(parts@.map_values(|p: String| p@)[1] == parts@[1]@);
        } else {
            assert(""@ =~= Seq::<char>::empty()) by {
                reveal_strlit("");
            }
        }
    }
    let pairs = split_on_char(query.as_str(), '&');
    let ghost pv = pairs@.map_values(|p: String| p@);
    assert(pv == query_pairs(request_line@));
    let mut code: Option<String> = None;
    let mut state: Option<String> = None;
    let mut error: Option<String> = None;
    let mut i: usize = 0;
    while i < pairs.len()
        invariant
            i <= pairs.len(),
            pv == pairs@.map_values(|p: String| p@),
            pv == query_pairs(request_line@),
            scan_pairs(pv.take(i as int)) == Ok::<_, CallbackField>(
                (opt_chars(code), opt_chars(state), opt_chars(error)),
            ),
        decreases pairs.len() - i,
    {
        assert(pv.take(i + 1).drop_last() =~= pv.take(i as int));
        assert(pv.take(i + 1).last() == pairs@[i as int]@);
        match classify_pair(pairs[i].as_str()) {
            None => {},
            Some((f, raw)) => match percent_decode(raw.as_str()) {
                Err(e) => {
                    let detail = utf8_error_text(&e);
                    let msg = match f {
                        CallbackField::Code => concat2("Failed to decode OAuth code: ", detail.as_str()),
                        CallbackField::State => concat2("Failed to decode OAuth state: ", detail.as_str()),
                        CallbackField::Error => concat2("Failed to decode OAuth error: ", detail.as_str()),
                    };
                    proof {
                        assert(msg@ == decode_failure_prefix(f) + detail@);
                        assert(scan_pairs(pv.take(i + 1)) == Err::<
                            (Option<Seq<char>>, Option<Seq<char>>, Option<Seq<char>>),
                            CallbackField,
                        >(f));
                        lemma_scan_err_sticks(pv, (i + 1) as int);
                        assert(pv.take(pv.len() as int) =~= pv);
                    }
                    return Err(msg);
                },
                Ok(v) => match f {
                    CallbackField::Code => { code = Some(v); },
                    CallbackField::State => { state = Some(v); },
                    CallbackField::Error => { error = Some(v); },
                },
            },
        }
        i += 1;
    }
    assert(pv.take(pv.len() as int) =~= pv);
    Ok(CallbackQuery { code, state, error })
}

/// The characters of an optional string.
pub open spec fn opt_chars(s: Option<String>) -> Option<Seq<char>> {
    match s {
        Some(t) => Some(t@),
        None => None,
    }
}

/// Once a prefix of the pairs fails to scan, every longer prefix fails the
/// same way.
proof fn lemma_scan_err_sticks(pairs: Seq<Seq<char>>, k: int)
    requires
        0 <= k <= pairs.len(),
        scan_pairs(pairs.take(k)) is Err,
    ensures
        scan_pairs(pairs) == scan_pairs(pairs.take(k)),
    decreases pairs.len() - k,
{
    if k < pairs.len() {
        assert(pairs.take(k + 1).drop_last() =~= pairs.take(k));
        lemma_scan_err_sticks(pairs, k + 1);
    } else {
        assert(pairs.take(k) =~= pairs);
    }
}

/// The page shown after a successful login.
pub const SUCCESS_BODY: &'static str = "<html><body style='font-family:sans-serif;text-align:center;padding:60px'><h2>&#10003; Audia: Login successful!</h2><p>You can close this tab and return to the app.</p></body></html>";

/// The page shown after a failed login.
pub const FAILURE_BODY: &'static str = "<html><body style='font-family:sans-serif;text-align:center;padding:60px'><h2>&#10007; Audia: Login failed.</h2><p>Please return to the app and try again.</p></body></html>";

/// The HTTP response that carries `body`, with its byte length.
pub open spec fn html_response(body: &str) -> Seq<char> {
    "HTTP/1.1 200 OK\r\nContent-Type: text/html; charset=utf-8\r\nContent-Length: "@
        + decimal(body.len() as nat) + "\r\nConnection: close\r\n\r\n"@ + body@
}

/// Whether the redirect reports success: a code and no error.
pub open spec fn callback_ok(q: CallbackQuery) -> bool {
    q.code is Some && q.error is None
}

/// The response sent back to the browser: the success page where the
/// redirect carried a code and no error, else the failure page.
pub fn callback_response(q: &CallbackQuery) -> (r: String)
    ensures
        r@ == html_response(if callback_ok(*q) { SUCCESS_BODY } else { FAILURE_BODY }),
{
    let body: &str = if q.code.is_some() && q.error.is_none() { SUCCESS_BODY } else { FAILURE_BODY };
    assert(body == if callback_ok(*q) { SUCCESS_BODY } else { FAILURE_BODY });
    let mut r = String::from_str("HTTP/1.1 200 OK\r\nContent-Type: text/html; charset=utf-8\r\nContent-Length: ");
    let len = u64_to_decimal(body.len() as u64);
    r.append(len.as_str());
    r.append("\r\nConnection: close\r\n\r\n");
    r.append(body);
    r
}

/// What the login learns from the redirect: an error reported by Spotify,
/// then a state that is not the one sent, then a missing code, each refuse
/// it; otherwise the code.
pub open spec fn callback_outcome_spec(q: CallbackQuery, expected_state: Seq<char>) -> Result<Seq<char>, Seq<char>> {
    if q.error is Some {
        Err("Spotify authorization denied: "@ + q.error->0@)
    } else if opt_chars(q.state) != Some(expected_state) {
        Err("OAuth state mismatch guard triggered — aborting login"@)
    } else if q.code is None {
        Err("No authorization code in Spotify callback"@)
    } else {
        Ok(q.code->0@)
    }
}

/// The result of a result of strings, by characters.
pub open spec fn result_chars(r: Result<String, String>) -> Result<Seq<char>, Seq<char>> {
    match r {
        Ok(t) => Ok(t@),
        Err(e) => Err(e@),
    }
}

/// The authorization code the redirect delivers, or why the login fails.
pub fn callback_outcome(q: &CallbackQuery, expected_state: &str) -> (r: Result<String, String>)
    ensures
        result_chars(r) == callback_outcome_spec(*q, expected_state@),
{
    if let Some(e) = &q.error {
        return Err(concat2("Spotify authorization denied: ", e.as_str()));
    }
    let state_matches = match &q.state {
        Some(s) => crate::text::str_eq(s.as_str(), expected_state),
        None => false,
    };
    if !state_matches {
        return Err(owned("OAuth state mismatch guard triggered — aborting login"));
    }
    match &q.code {
        Some(c) => Ok(c.clone()),
        None => Err(owned("No authorization code in Spotify callback")),
    }
}

/// Handles the callback's request line: the response to send back (none
/// when a value fails to decode, which ends the login at once) and the
/// login's outcome.
pub fn handle_callback_request(request_line: &str, expected_state: &str) -> (r: (Option<String>, Result<String, String>))
    ensures
        match scan_pairs(query_pairs(request_line@)) {
            Ok((c, s, e)) => {
                &&& r.0 is Some
                &&& (exists|q: CallbackQuery| opt_chars(q.code) == c && opt_chars(q.state) == s
                    && opt_chars(q.error) == e
                    && r.0->0@ == html_response(if callback_ok(q) { SUCCESS_BODY } else { FAILURE_BODY })
                    && result_chars(r.1) == callback_outcome_spec(q, expected_state@))
            },
            Err(f) => {
                &&& r.0 is None
                &&& r.1 matches Err(msg) && exists|t: Seq<char>| msg@ == decode_failure_prefix(f) + t
            },
        },
{
    match parse_callback_request(request_line) {
        Err(msg) => (None, Err(msg)),
        Ok(q) => {
            let response = callback_response(&q);
            let outcome = callback_outcome(&q, expected_state);
            (Some(response), outcome)
        },
    }
}

/// The message for a callback that did not come within `timeout_secs`.
pub fn callback_timeout_message(timeout_secs: u64) -> (m: String)
    ensures
        m@ == "Timed out waiting for OAuth callback on "@ + REDIRECT_URI@ + " after "@
            + decimal(timeout_secs as nat) + " seconds"@,
{
    let mut m = String::from_str("Timed out waiting for OAuth callback on ");
    m.append(REDIRECT_URI);
    m.append(" after ");
    let secs = u64_to_decimal(timeout_secs);
    m.append(secs.as_str());
    m.append(" seconds");
    m
}

/// How long the login waits for the browser, in seconds.
pub const CALLBACK_TIMEOUT_SECS: u64 = 180;

/// The login takes a code only from a redirect that carries the state it
/// sent and no error: any other redirect is refused, whatever it carries.
pub proof fn law_code_only_with_matching_state(q: CallbackQuery, expected_state: Seq<char>)
    ensures
        callback_outcome_spec(q, expected_state) is Ok ==> {
            &&& opt_chars(q.state) == Some(expected_state)
            &&& q.error is None
            &&& q.code is Some && callback_outcome_spec(q, expected_state)->Ok_0 == q.code->0@
        },
        opt_chars(q.state) != Some(expected_state) ==> callback_outcome_spec(q, expected_state) is Err,
{
}

// ------------------------------------------------------------------ tokens
/// The token endpoint's answer.
#[derive(Debug)]
pub struct TokenResponse {
    pub access_token: String,
    pub expires_in: u64,
    pub refresh_token: Option<String>,
    pub _token_type: String,
}

/// Where codes and refresh tokens are exchanged for access tokens.
pub const TOKEN_URL: &'static str = "https://accounts.spotify.com/api/token";

/// The fields of a form, by characters.
pub open spec fn form_view(f: Seq<(String, String)>) -> Seq<(Seq<char>, Seq<char>)> {
    f.map_values(|p: (String, String)| (p.0@, p.1@))
}

fn field(name: &str, value: &str) -> (p: (String, String))
    ensures
        p.0@ == name@,
        p.1@ == value@,
{
    (owned(name), owned(value))
}

/// The form that exchanges an authorization code (with its PKCE verifier).
pub fn exchange_code_form(client_id: &str, code: &str, code_verifier: &str) -> (f: Vec<(String, String)>)
    ensures
        form_view(f@) == seq![
            ("client_id"@, client_id@),
            ("grant_type"@, "authorization_code"@),
            ("code"@, code@),
            ("redirect_uri"@, REDIRECT_URI@),
            ("code_verifier"@, code_verifier@),
        ],
{
    let mut f: Vec<(String, String)> = Vec::new();
    f.push(field("client_id", client_id));
    f.push(field("grant_type", "authorization_code"));
    f.push(field("code", code));
    f.push(field("redirect_uri", REDIRECT_URI));
    f.push(field("code_verifier", code_verifier));
    assert(form_view(f@) =~= seq![
        ("client_id"@, client_id@),
        ("grant_type"@, "authorization_code"@),
        ("code"@, code@),
        ("redirect_uri"@, REDIRECT_URI@),
        ("code_verifier"@, code_verifier@),
    ]);
    f
}

/// The form that trades a refresh token for a new access token.
pub fn refresh_token_form(client_id: &str, refresh_token: &str) -> (f: Vec<(String, String)>)
    ensures
        form_view(f@) == seq![
            ("client_id"@, client_id@),
            ("grant_type"@, "refresh_token"@),
            ("refresh_token"@, refresh_token@),
        ],
{
    let mut f: Vec<(String, String)> = Vec::new();
    f.push(field("client_id", client_id));
    f.push(field("grant_type", "refresh_token"));
    f.push(field("refresh_token", refresh_token));
    assert(form_view(f@) =~= seq![
        ("client_id"@, client_id@),
        ("grant_type"@, "refresh_token"@),
        ("refresh_token"@, refresh_token@),
    ]);
    f
}

} // verus!
