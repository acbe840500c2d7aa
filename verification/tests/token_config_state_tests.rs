use base64::Engine;
use relay_core::config::{default_poll_interval, parse_u64, trimmed, AppConfig, HeadlessConfig, RelayConfig};
use relay_core::state::{AppState, ConnectionStatus, NowPlayingInfo};
use relay_core::token::{
    connection_params, connection_token_from_response, decode_jwt_claims, token_endpoint, token_expiry,
    TokenError,
};

fn jwt(claims: &str) -> String {
    let enc = base64::engine::general_purpose::URL_SAFE_NO_PAD;
    format!("{}.{}.{}", enc.encode("{\"alg\":\"HS256\"}"), enc.encode(claims), "sig")
}

#[test]
fn token_endpoint_drops_trailing_slashes() {
    assert_eq!(token_endpoint("https://srv.example//"), "https://srv.example/api/connector/token");
    assert_eq!(token_endpoint("https://srv.example"), "https://srv.example/api/connector/token");
}

#[test]
fn connection_token_outcomes() {
    let ct = connection_token_from_response(
        200,
        "200 OK",
        r#"{"token":"t","channel":"relay:u1","websocket_url":"wss://ws/connection/websocket"}"#,
    )
    .ok()
    .unwrap();
    let (url, token, channel) = connection_params(ct);
    assert_eq!(url, "wss://ws/connection/websocket");
    assert_eq!(token, "t");
    assert_eq!(channel, "relay:u1");
    match connection_token_from_response(401, "401 Unauthorized", "bad key") {
        Err(e @ TokenError::FetchFailed(_)) => assert_eq!(e.message(), "Token fetch failed: HTTP 401 Unauthorized - bad key"),
        _ => panic!("expected a fetch failure"),
    }
    match connection_token_from_response(200, "200 OK", r#"{"token":"t"}"#) {
        Err(TokenError::FetchFailed(m)) => assert_eq!(m, "Missing channel in response"),
        _ => panic!("expected a missing channel"),
    }
    match connection_token_from_response(200, "200 OK", r#"{"token":"t","channel":"c"}"#) {
        Err(TokenError::FetchFailed(m)) => assert_eq!(m, "Missing websocket_url in response"),
        _ => panic!("expected a missing websocket url"),
    }
    match connection_token_from_response(200, "200 OK", r#"{}"#) {
        Err(TokenError::FetchFailed(m)) => assert_eq!(m, "Missing token in response"),
        _ => panic!("expected a missing token"),
    }
    assert!(matches!(connection_token_from_response(200, "200 OK", "nope"), Err(TokenError::Http(_))));
}

#[test]
fn jwt_expiry_is_read_from_claims() {
    let t = jwt(r#"{"sub":"u","exp":1700000000}"#);
    assert_eq!(token_expiry(&t), Some(1_700_000_000));
    assert_eq!(decode_jwt_claims(&t).unwrap(), br#"{"sub":"u","exp":1700000000}"#.to_vec());
    assert_eq!(token_expiry(&jwt(r#"{"sub":"u"}"#)), None);
    assert_eq!(token_expiry(&jwt(r#"{"exp":"soon"}"#)), None);
    assert_eq!(token_expiry("only.two"), None);
    assert_eq!(token_expiry("a.!!!.c"), None);
    let padded = format!("{}=", jwt(r#"{"exp":5}"#).split('.').nth(1).unwrap());
    assert_eq!(token_expiry(&format!("h.{}.s", padded)), Some(5));
}

#[test]
fn poll_interval_answers_are_clamped() {
    assert_eq!(HeadlessConfig::poll_interval_from_input(""), 5);
    assert_eq!(HeadlessConfig::poll_interval_from_input("abc"), 5);
    assert_eq!(HeadlessConfig::poll_interval_from_input("0"), 1);
    assert_eq!(HeadlessConfig::poll_interval_from_input("15"), 15);
    assert_eq!(HeadlessConfig::poll_interval_from_input("600"), 60);
    assert_eq!(HeadlessConfig::poll_interval_from_input("+7"), 7);
    assert_eq!(HeadlessConfig::poll_interval_from_input("99999999999999999999999"), 5);
    assert_eq!(default_poll_interval(), 5);
}

#[test]
fn parse_u64_follows_std() {
    for s in ["0", "42", "+9", "18446744073709551615", "18446744073709551616", "", "+", "-1", "4 2", " 1"] {
        assert_eq!(parse_u64(s), s.parse::<u64>().ok(), "input {:?}", s);
    }
    assert_eq!(trimmed("  x y \t\n"), "x y");
}

#[test]
fn first_run_answers_build_config() {
    let c = HeadlessConfig::from_answers(" https://srv \n", "key\n", " cid ", " 12 \n");
    assert_eq!(c.server_url, "https://srv");
    assert_eq!(c.api_key, "key");
    assert_eq!(c.spotify_client_id, "cid");
    assert_eq!(c.poll_interval_secs, 12);
    assert!(c.refresh_token.is_none());
    assert!(c.is_configured());
    let rc = c.to_relay_config();
    assert_eq!(rc.redirect_uri, "http://127.0.0.1:18974/callback");
    assert!(rc.is_configured());
    assert!(rc.has_server());
    assert!(!HeadlessConfig::default().is_configured());
}

#[test]
fn relay_config_defaults_and_poll_period() {
    let mut c = RelayConfig::default();
    assert!(!c.is_configured());
    assert!(!c.has_server());
    assert_eq!(c.poll_period_secs(), 5);
    c.poll_interval_secs = 0;
    assert_eq!(c.poll_period_secs(), 1);
    c.spotify_client_id = "cid".to_string();
    assert!(!c.is_configured());
}

#[test]
fn desktop_config_from_store_entries() {
    let d = AppConfig::default();
    assert!(!d.is_configured());
    assert_eq!(d.poll_interval_secs, 5);
    assert_eq!(d.redirect_uri, "http://127.0.0.1:18974/callback");
    assert!(d.close_to_tray);
    let c = AppConfig::from_entries(
        Some("wss://w".to_string()),
        Some("tok".to_string()),
        Some("ch".to_string()),
        Some("cid".to_string()),
        Some(9),
        Some(false),
    );
    assert!(c.is_configured());
    assert_eq!(c.poll_interval_secs, 9);
    assert!(!c.close_to_tray);
    assert_eq!(c.redirect_uri, "http://127.0.0.1:18974/callback");
}

fn info(playing: bool, name: &str) -> NowPlayingInfo {
    NowPlayingInfo {
        track_name: name.to_string(),
        artist_name: "Artist".to_string(),
        album_name: "Album".to_string(),
        album_art_url: None,
        is_playing: playing,
        progress_ms: Some(12),
        duration_ms: 300,
        track_uri: "spotify:track:9".to_string(),
    }
}

#[test]
fn status_report_lines() {
    let mut s = AppState::default();
    let r = s.status_report();
    assert_eq!(r.text, "[disconnected|disconnected]");
    assert!(!r.warn);
    s.spotify_status = ConnectionStatus::Connected;
    s.websocket_status = ConnectionStatus::Connecting;
    s.last_error = Some("boom".to_string());
    let r = s.status_report();
    assert_eq!(r.text, "[connected|connecting] Error: boom");
    assert!(r.warn);
    s.now_playing = Some(info(true, "Song"));
    let r = s.status_report();
    assert_eq!(r.text, "[connected|connecting] Now playing: Artist - Song");
    assert!(!r.warn);
    s.now_playing = Some(info(true, ""));
    assert!(s.status_report().warn);
}

#[test]
fn status_json_shape() {
    let mut s = AppState::default();
    s.now_playing = Some(info(false, "S\"q"));
    let v: serde_json::Value = serde_json::from_str(&s.status_json()).unwrap();
    assert_eq!(v["spotify"], "Disconnected");
    assert_eq!(v["websocket"], "Disconnected");
    assert_eq!(v["last_error"], serde_json::Value::Null);
    assert_eq!(v["now_playing"]["track_name"], "S\"q");
    assert_eq!(v["now_playing"]["progress_ms"], 12);
    assert_eq!(
        info(true, "T").to_json(),
        r#"{"album_art_url":null,"album_name":"Album","artist_name":"Artist","duration_ms":300,"is_playing":true,"progress_ms":12,"track_name":"T","track_uri":"spotify:track:9"}"#
    );
    assert_eq!(ConnectionStatus::Connecting.text(), "connecting");
    assert_eq!(ConnectionStatus::Connected.name(), "Connected");
    assert_eq!(ConnectionStatus::default(), ConnectionStatus::Disconnected);
}

#[test]
fn jwt_claims_need_canonical_base64url() {
    assert_eq!(decode_jwt_claims("h.QQ.s"), Some(b"A".to_vec()));
    assert_eq!(decode_jwt_claims("h.QQ==.s"), Some(b"A".to_vec()));
    assert_eq!(decode_jwt_claims("h.QR.s"), None);
    assert_eq!(decode_jwt_claims("h.Q.s"), None);
    assert_eq!(decode_jwt_claims("h.a+b/.s"), None);
    assert_eq!(decode_jwt_claims("h..s"), Some(Vec::new()));
    let claims = br#"{"exp":42,"x":"\u00e9"}"#;
    let enc = base64::engine::general_purpose::URL_SAFE_NO_PAD.encode(claims);
    assert_eq!(decode_jwt_claims(&format!("header.{}.signature", enc)), Some(claims.to_vec()));
}
