use base64::Engine;
use relay_core::oauth::callback::handle_callback_request;
use relay_core::oauth::urlencoding::encode;
use relay_core::oauth::{
    build_auth_url, exchange_form, exchange_grant, generate_pkce, generate_state, refresh_form,
    refresh_grant, spotify_error_code, OAuthError, TokenGrant,
};
use sha2::Digest;

#[test]
fn refresh_invalid_grant_is_structured() {
    let form = refresh_form("client", "expired");
    assert_eq!(form[2].1, "client");
    let err = refresh_grant(
        400,
        "400 Bad Request",
        r#"{"error":"invalid_grant","error_description":"Refresh token expired"}"#,
        "expired",
    )
    .err()
    .unwrap();
    assert!(err.is_invalid_grant());
}

#[test]
fn refresh_transient_failure_is_not_invalid_grant() {
    let form = refresh_form("client", "refresh");
    assert_eq!(form[1].1, "refresh");
    let err = refresh_grant(500, "500 Internal Server Error", r#"{"error":"server_error"}"#, "refresh")
        .err()
        .unwrap();
    assert!(!err.is_invalid_grant());
    assert!(matches!(err, OAuthError::TokenRefreshFailed(_)));
}

#[test]
fn refresh_success_uses_returned_refresh_token() {
    let form = refresh_form("client", "old-refresh");
    assert_eq!(form[0].1, "refresh_token");
    let tokens = refresh_grant(
        200,
        "200 OK",
        r#"{"access_token":"access","refresh_token":"fresh-refresh","expires_in":3600}"#,
        "old-refresh",
    )
    .ok()
    .unwrap();
    assert_eq!(tokens.access_token, "access");
    assert_eq!(tokens.refresh_token, "fresh-refresh");
}

#[test]
fn refresh_without_new_token_keeps_old_one_and_default_lifetime() {
    let g = refresh_grant(200, "200 OK", r#"{"access_token":"a"}"#, "old").ok().unwrap();
    assert_eq!(g.refresh_token, "old");
    assert_eq!(g.expires_in, 3600);
    let t = g.tokens_at(1_000);
    assert_eq!(t.expires_at, 4_600);
}

#[test]
fn refresh_failure_text_includes_status_and_body() {
    match refresh_grant(502, "502 Bad Gateway", "oops", "r") {
        Err(OAuthError::TokenRefreshFailed(m)) => assert_eq!(m, "HTTP 502 Bad Gateway - oops"),
        _ => panic!("expected a refresh failure"),
    }
    match refresh_grant(200, "200 OK", "not json", "r") {
        Err(OAuthError::Http(m)) => assert_eq!(m, "error decoding response body"),
        _ => panic!("expected a decoding error"),
    }
    match refresh_grant(200, "200 OK", r#"{"token_type":"Bearer"}"#, "r") {
        Err(OAuthError::TokenRefreshFailed(m)) => assert_eq!(m, "Missing access_token"),
        _ => panic!("expected a missing access token"),
    }
}

#[test]
fn exchange_grant_outcomes() {
    let g = exchange_grant(200, "200 OK", r#"{"access_token":"a","refresh_token":"r","expires_in":60}"#)
        .ok()
        .unwrap();
    assert_eq!((g.access_token.as_str(), g.refresh_token.as_str(), g.expires_in), ("a", "r", 60));
    match exchange_grant(200, "200 OK", r#"{"access_token":"a"}"#) {
        Err(OAuthError::TokenExchangeFailed(m)) => assert_eq!(m, "Missing refresh_token"),
        _ => panic!("expected a missing refresh token"),
    }
    match exchange_grant(400, "400 Bad Request", "bad") {
        Err(OAuthError::TokenExchangeFailed(m)) => assert_eq!(m, "HTTP 400 Bad Request - bad"),
        _ => panic!("expected a failed exchange"),
    }
    let form = exchange_form("cid", "the-code", "http://127.0.0.1:18974/callback", "verifier");
    let names: Vec<&str> = form.iter().map(|p| p.0).collect();
    assert_eq!(names, vec!["grant_type", "code", "redirect_uri", "client_id", "code_verifier"]);
    assert_eq!(form[1].1, "the-code");
}

#[test]
fn tokens_at_adds_lifetime() {
    let g = TokenGrant { access_token: "a".into(), refresh_token: "r".into(), expires_in: 3600 };
    let t = g.tokens_at(1_700_000_000);
    assert_eq!(t.expires_at, 1_700_003_600);
    assert_eq!(t.access_token, "a");
}

#[test]
fn error_code_of_body() {
    assert_eq!(spotify_error_code(r#"{"error":"invalid_grant"}"#).as_deref(), Some("invalid_grant"));
    assert_eq!(spotify_error_code(r#"{"error":{"status":401}}"#), None);
    assert_eq!(spotify_error_code("<html>"), None);
}

#[test]
fn oauth_error_messages() {
    assert_eq!(OAuthError::InvalidGrant.message(), "Spotify authorization is required");
    assert_eq!(OAuthError::StateMismatch.message(), "State mismatch (possible CSRF)");
    assert_eq!(
        OAuthError::CallbackTimeout.message(),
        "Callback timed out (user did not complete authorization)"
    );
    assert_eq!(OAuthError::CallbackError("x".into()).message(), "Callback listener error: x");
    assert_eq!(OAuthError::Io("y".into()).message(), "IO error: y");
    assert!(!OAuthError::Http("z".into()).is_invalid_grant());
}

#[test]
fn percent_encoding() {
    assert_eq!(encode("AZaz09-_.~"), "AZaz09-_.~");
    assert_eq!(encode("a b&c=d/e"), "a%20b%26c%3Dd%2Fe");
    assert_eq!(encode("ü"), "%C3%BC");
    assert_eq!(encode(""), "");
}

#[test]
fn auth_url_is_complete() {
    let url = build_auth_url("cid", "http://127.0.0.1:18974/callback", "chal", "st");
    assert_eq!(
        url,
        "https://accounts.spotify.com/authorize?client_id=cid&response_type=code&redirect_uri=http%3A%2F%2F127.0.0.1%3A18974%2Fcallback&scope=user-read-currently-playing%20user-read-playback-state%20user-modify-playback-state%20playlist-read-private%20playlist-read-collaborative%20playlist-modify-public%20playlist-modify-private&code_challenge_method=S256&code_challenge=chal&state=st"
    );
}

#[test]
fn pkce_challenge_is_sha256_of_verifier() {
    let (verifier, challenge) = generate_pkce();
    assert_eq!(verifier.len(), 128);
    assert!(verifier.chars().all(|c| c.is_ascii_alphanumeric() || "-._~".contains(c)));
    let digest = sha2::Sha256::digest(verifier.as_bytes());
    let expected = base64::engine::general_purpose::URL_SAFE_NO_PAD.encode(digest);
    assert_eq!(challenge, expected);
    assert_eq!(challenge.len(), 43);
    assert_ne!(challenge, verifier);
    let state = generate_state();
    assert_eq!(state.len(), 32);
    assert!(state.chars().all(|c| c.is_ascii_alphanumeric()));
}

#[test]
fn callback_success() {
    let req = "GET /callback?code=abc&state=xyz HTTP/1.1\r\nHost: 127.0.0.1\r\n\r\n";
    let o = handle_callback_request(req, "xyz");
    assert_eq!(o.result.ok().unwrap(), "abc");
    let html = "<html><body><h3>Authentication complete.</h3><p>You may close this window and return to Music Relay.</p></body></html>";
    assert_eq!(
        o.reply.unwrap(),
        format!(
            "HTTP/1.1 200 OK\r\nContent-Type: text/html\r\nContent-Length: {}\r\nConnection: close\r\n\r\n{}",
            html.len(),
            html
        )
    );
}

#[test]
fn callback_errors() {
    let o = handle_callback_request("GET /callback?error=access_denied&state=s HTTP/1.1\r\n", "s");
    assert!(matches!(o.result, Err(OAuthError::AuthorizationFailed(ref e)) if e == "access_denied"));
    assert!(o.reply.unwrap().contains("<p>access_denied</p>"));

    let o = handle_callback_request("GET /callback?code=c&state=bad HTTP/1.1\r\n", "good");
    assert!(matches!(o.result, Err(OAuthError::StateMismatch)));
    assert!(o.reply.unwrap().contains("State mismatch"));

    let o = handle_callback_request("GET /callback?code=c HTTP/1.1\r\n", "");
    assert_eq!(o.result.ok().unwrap(), "c");

    let o = handle_callback_request("GET /callback?state=s HTTP/1.1\r\n", "s");
    assert!(matches!(o.result, Err(OAuthError::CallbackError(ref m)) if m == "No code parameter"));
    assert!(o.reply.is_none());

    let o = handle_callback_request("GET /callback HTTP/1.1\r\n", "s");
    assert!(matches!(o.result, Err(OAuthError::CallbackError(ref m)) if m == "No query string in callback"));

    let o = handle_callback_request("GET\r\n", "s");
    assert!(matches!(o.result, Err(OAuthError::CallbackError(ref m)) if m == "No path in request"));

    let o = handle_callback_request("", "s");
    assert!(matches!(o.result, Err(OAuthError::CallbackError(ref m)) if m == "Empty request"));
}

#[test]
fn callback_last_parameter_wins_and_pairs_need_equals() {
    let o = handle_callback_request("GET /cb?code=one&flag&code=two&state=s HTTP/1.1", "s");
    assert_eq!(o.result.ok().unwrap(), "two");
    let o = handle_callback_request("GET /cb?code=a=b&state=s HTTP/1.1", "s");
    assert_eq!(o.result.ok().unwrap(), "a=b");
}

#[test]
fn percent_encoding_round_trips() {
    fn decode(s: &str) -> Vec<u8> {
        let b = s.as_bytes();
        let mut out = Vec::new();
        let mut i = 0;
        while i < b.len() {
            if b[i] == b'%' {
                out.push(u8::from_str_radix(&s[i + 1..i + 3], 16).unwrap());
                i += 3;
            } else {
                out.push(b[i]);
                i += 1;
            }
        }
        out
    }
    for input in ["", "plain", "a b&c=d/e?f#g", "ü€🎵", "%25%", "spotify:track:4iV5W9uYEdYUVa79Axb7Rh"] {
        let e = encode(input);
        assert_eq!(decode(&e), input.as_bytes());
        assert!(e.len() <= 3 * input.len());
    }
}

#[test]
fn drawn_indices_pick_alphabet_entries() {
    let all: Vec<usize> = vec![0, 25, 26, 51, 52, 61, 62, 63, 64, 65];
    assert_eq!(relay_core::oauth::chars_from_indices(&all, 66), "AZaz09-._~");
    assert_eq!(relay_core::oauth::chars_from_indices(&vec![7, 7, 33], 62), "HHh");
    assert_eq!(relay_core::oauth::chars_from_indices(&Vec::new(), 62), "");
}
