use audia::oauth::{
    auth_url, callback_outcome, callback_response, callback_timeout_message, code_challenge,
    exchange_code_form, generate_code_verifier, generate_state, handle_callback_request,
    parse_callback_request, refresh_token_form, state_token_from_nanos, CallbackQuery,
    FAILURE_BODY, REDIRECT_URI, SUCCESS_BODY,
};

#[test]
fn state_token_pads_nanos_to_ten_digits() {
    assert_eq!(state_token_from_nanos(42), "audia0000000042");
    assert_eq!(state_token_from_nanos(999_999_999), "audia0999999999");
    assert_eq!(state_token_from_nanos(4_294_967_295), "audia4294967295");
}

#[test]
fn generated_state_has_prefix_and_digits() {
    let s = generate_state();
    assert_eq!(s.len(), 15);
    assert!(s.starts_with("audia"));
    assert!(s[5..].chars().all(|c| c.is_ascii_digit()));
}

#[test]
fn code_verifier_is_64_alphanumerics() {
    let v = generate_code_verifier();
    assert_eq!(v.len(), 64);
    assert!(v.chars().all(|c| c.is_ascii_alphanumeric()));
    assert_ne!(v, generate_code_verifier());
}

#[test]
fn code_challenge_has_43_characters() {
    assert_eq!(code_challenge(&generate_code_verifier()).chars().count(), 43);
    assert_eq!(code_challenge("").chars().count(), 43);
}

#[test]
fn code_challenge_matches_pkce_example() {
    // The example pair of RFC 7636, appendix B.
    assert_eq!(
        code_challenge("dBjftJeZ4CVP-mB92K27uhbUJU1p1r_wW1gFWFOEjXk"),
        "E9Melhoa2OwvFrEMTJguCHaoeK1t8URWbuGJSstw-cM"
    );
}

#[test]
fn auth_url_lists_every_parameter() {
    let url = auth_url("cid", "audia0000000001", "chal");
    assert_eq!(
        url,
        "https://accounts.spotify.com/authorize?client_id=cid&response_type=code\
         &redirect_uri=http%3A%2F%2F127.0.0.1%3A8888%2Fcallback\
         &scope=user-read-private%20user-modify-playback-state%20streaming%20user-read-playback-state%20playlist-read-private%20playlist-read-collaborative\
         &state=audia0000000001&code_challenge_method=S256&code_challenge=chal"
    );
}

#[test]
fn callback_request_yields_decoded_code() {
    let q = parse_callback_request("GET /callback?code=a%2Fb&state=s1 HTTP/1.1\r\n").unwrap();
    assert_eq!(q.code.as_deref(), Some("a/b"));
    assert_eq!(q.state.as_deref(), Some("s1"));
    assert_eq!(q.error, None);
}

#[test]
fn callback_last_duplicate_wins_and_plus_is_kept() {
    let q = parse_callback_request("GET /callback?code=one&code=two+three&other=x HTTP/1.1").unwrap();
    assert_eq!(q.code.as_deref(), Some("two+three"));
    assert_eq!(q.state, None);
}

#[test]
fn callback_without_query_has_nothing() {
    let q = parse_callback_request("GET /callback HTTP/1.1").unwrap();
    assert!(q.code.is_none() && q.state.is_none() && q.error.is_none());
    let q = parse_callback_request("").unwrap();
    assert!(q.code.is_none());
}

#[test]
fn callback_with_bad_encoding_fails() {
    let err = parse_callback_request("GET /callback?state=%FF HTTP/1.1").unwrap_err();
    assert!(err.starts_with("Failed to decode OAuth state: "));
}

#[test]
fn callback_outcomes() {
    let ok = CallbackQuery { code: Some("c".into()), state: Some("s".into()), error: None };
    assert_eq!(callback_outcome(&ok, "s"), Ok("c".to_string()));
    assert_eq!(
        callback_outcome(&ok, "t"),
        Err("OAuth state mismatch guard triggered — aborting login".to_string())
    );
    let denied = CallbackQuery { code: None, state: Some("s".into()), error: Some("access_denied".into()) };
    assert_eq!(
        callback_outcome(&denied, "s"),
        Err("Spotify authorization denied: access_denied".to_string())
    );
    let no_code = CallbackQuery { code: None, state: Some("s".into()), error: None };
    assert_eq!(
        callback_outcome(&no_code, "s"),
        Err("No authorization code in Spotify callback".to_string())
    );
}

#[test]
fn callback_response_carries_length() {
    let ok = CallbackQuery { code: Some("c".into()), state: None, error: None };
    let r = callback_response(&ok);
    assert!(r.starts_with("HTTP/1.1 200 OK\r\nContent-Type: text/html; charset=utf-8\r\n"));
    assert!(r.contains(&format!("Content-Length: {}\r\n", SUCCESS_BODY.len())));
    assert!(r.ends_with(SUCCESS_BODY));
    let failed = CallbackQuery { code: Some("c".into()), state: None, error: Some("e".into()) };
    assert!(callback_response(&failed).ends_with(FAILURE_BODY));
}

#[test]
fn handle_callback_combines_response_and_outcome() {
    let (resp, outcome) = handle_callback_request("GET /callback?code=abc&state=xyz HTTP/1.1", "xyz");
    assert!(resp.unwrap().ends_with(SUCCESS_BODY));
    assert_eq!(outcome, Ok("abc".to_string()));
    let (resp, outcome) = handle_callback_request("GET /callback?error=access_denied&state=xyz HTTP/1.1", "xyz");
    assert!(resp.unwrap().ends_with(FAILURE_BODY));
    assert_eq!(outcome, Err("Spotify authorization denied: access_denied".to_string()));
    let (resp, outcome) = handle_callback_request("GET /callback?code=%C3 HTTP/1.1", "xyz");
    assert!(resp.is_none());
    assert!(outcome.unwrap_err().starts_with("Failed to decode OAuth code: "));
}

#[test]
fn timeout_message_names_uri_and_seconds() {
    assert_eq!(
        callback_timeout_message(180),
        format!("Timed out waiting for OAuth callback on {REDIRECT_URI} after 180 seconds")
    );
}

#[test]
fn token_forms() {
    let f = exchange_code_form("cid", "code1", "ver");
    let expected: Vec<(String, String)> = vec![
        ("client_id".into(), "cid".into()),
        ("grant_type".into(), "authorization_code".into()),
        ("code".into(), "code1".into()),
        ("redirect_uri".into(), REDIRECT_URI.into()),
        ("code_verifier".into(), "ver".into()),
    ];
    assert_eq!(f, expected);
    let r = refresh_token_form("cid", "rt");
    let expected: Vec<(String, String)> = vec![
        ("client_id".into(), "cid".into()),
        ("grant_type".into(), "refresh_token".into()),
        ("refresh_token".into(), "rt".into()),
    ];
    assert_eq!(r, expected);
}
