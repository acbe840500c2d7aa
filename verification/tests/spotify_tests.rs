use relay_core::oauth::{OAuthError, OAuthTokens};
use relay_core::spotify::{
    add_to_playlist_requests, add_to_queue_request, artists_request, check_response, create_playlist_request,
    current_user_request, now_playing_request, pause_request, playback_state_request, playlist_details_request,
    playlist_tracks_request, queue_request, remove_from_playlist_requests, replace_playlist_requests,
    resume_request, search_request, set_volume_request, skip_next_request, skip_previous_request,
    snapshot_from_body, HttpMethod, RequestBody, SpotifyClient, SpotifyError, TokenAction, UserProfile,
};

fn tokens(access: &str, refresh: &str, expires_at: u64) -> OAuthTokens {
    OAuthTokens { access_token: access.to_string(), refresh_token: refresh.to_string(), expires_at }
}

fn body_of(b: &RequestBody) -> &str {
    match b {
        RequestBody::Json(s) => s.as_str(),
        _ => panic!("expected a JSON body"),
    }
}

#[test]
fn token_is_used_until_a_minute_before_expiry() {
    let mut c = SpotifyClient::new("cid".to_string());
    assert!(!c.has_tokens());
    assert!(matches!(c.token_action(0), TokenAction::Fail(SpotifyError::NotAuthenticated)));
    c.set_tokens(&tokens("acc", "ref", 1_000));
    assert!(c.has_tokens());
    assert!(matches!(c.token_action(939), TokenAction::Use(ref t) if t == "acc"));
    assert!(matches!(c.token_action(940), TokenAction::Refresh(ref t) if t == "ref"));
    assert!(SpotifyClient::is_expired(30, 0));
    assert!(!SpotifyClient::is_expired(61, 0));
}

#[test]
fn refresh_outcomes_update_the_client() {
    let mut c = SpotifyClient::new("cid".to_string());
    c.set_tokens(&tokens("a0", "r0", 10));
    let got = c.finish_refresh(Ok(tokens("a1", "r1", 5_000)));
    assert_eq!(got.ok().as_deref(), Some("a1"));
    assert_eq!(c.access_token.as_deref(), Some("a1"));
    assert_eq!(c.expires_at, 5_000);
    assert_eq!(c.take_refreshed_token().as_deref(), Some("r1"));
    assert!(c.take_refreshed_token().is_none());
    match c.finish_refresh(Err(OAuthError::TokenRefreshFailed("revoked".to_string()))) {
        Err(SpotifyError::RefreshFailed(m)) => assert!(m.contains("revoked")),
        _ => panic!("expected a refresh failure"),
    }
    assert_eq!(c.access_token.as_deref(), Some("a1"));
}

#[test]
fn unauthorized_answer_is_retried_once() {
    let mut c = SpotifyClient::new("cid".to_string());
    c.set_tokens(&tokens("a", "r", 9_999));
    assert!(!c.retry_after_status(500, false));
    assert_eq!(c.expires_at, 9_999);
    assert!(c.retry_after_status(401, false));
    assert_eq!(c.expires_at, 0);
    assert!(!c.retry_after_status(401, true));
    assert!(matches!(c.token_action(0), TokenAction::Refresh(_)));
    c.invalidate_token();
    assert_eq!(c.expires_at, 0);
    assert!(c.cached_profile().is_none());
    c.cache_user(UserProfile { id: "me".to_string(), display_name: Some("DJ".to_string()) });
    let p = c.cached_profile().unwrap();
    assert_eq!(p.id, "me");
    assert_eq!(p.display_name.as_deref(), Some("DJ"));
}

#[test]
fn response_status_check() {
    assert!(check_response(200, String::new()).is_ok());
    assert!(check_response(204, String::new()).is_ok());
    match check_response(404, "missing".to_string()) {
        Err(e @ SpotifyError::Api { .. }) => assert_eq!(e.message(), "Spotify API error: 404 missing"),
        _ => panic!("expected an API error"),
    }
    assert!(check_response(302, String::new()).is_err());
}

#[test]
fn fixed_requests() {
    assert_eq!(now_playing_request().url, "https://api.spotify.com/v1/me/player/currently-playing");
    assert_eq!(queue_request().url, "https://api.spotify.com/v1/me/player/queue");
    assert_eq!(playback_state_request().url, "https://api.spotify.com/v1/me/player");
    assert_eq!(current_user_request().url, "https://api.spotify.com/v1/me");
    assert!(matches!(pause_request().method, HttpMethod::Put));
    assert_eq!(resume_request().url, "https://api.spotify.com/v1/me/player/play");
    assert!(matches!(skip_next_request().method, HttpMethod::Post));
    assert_eq!(skip_previous_request().url, "https://api.spotify.com/v1/me/player/previous");
    assert_eq!(set_volume_request(42).url, "https://api.spotify.com/v1/me/player/volume?volume_percent=42");
    assert!(matches!(set_volume_request(42).body, RequestBody::Empty));
}

#[test]
fn parameterized_requests() {
    assert_eq!(
        search_request("héllo", 80).url,
        "https://api.spotify.com/v1/search?q=h%C3%A9llo&type=track&limit=50"
    );
    let q = add_to_queue_request("spotify:track:abc");
    assert_eq!(q.url, "https://api.spotify.com/v1/me/player/queue?uri=spotify%3Atrack%3Aabc");
    assert!(matches!(q.method, HttpMethod::Post));
    assert_eq!(
        playlist_tracks_request("pl", 5, 500).url,
        "https://api.spotify.com/v1/playlists/pl/tracks?offset=5&limit=100&fields=items(track(id,name,uri,duration_ms,artists(id,name),album(id,name,images))),total"
    );
    let ids = vec!["a".to_string(), "b".to_string(), "c".to_string()];
    assert_eq!(artists_request(&ids).url, "https://api.spotify.com/v1/artists?ids=a,b,c");
    assert_eq!(
        playlist_details_request("pl").url,
        "https://api.spotify.com/v1/playlists/pl?fields=id,name,owner(id,display_name),tracks(total),external_urls"
    );
    let c = create_playlist_request("me", "My \"List\"", Some("desc"), true);
    assert_eq!(c.url, "https://api.spotify.com/v1/users/me/playlists");
    assert_eq!(body_of(&c.body), r#"{"description":"desc","name":"My \"List\"","public":true}"#);
    let c = create_playlist_request("me", "L", None, false);
    assert_eq!(body_of(&c.body), r#"{"name":"L","public":false}"#);
}

#[test]
fn playlist_edits_are_batched_by_hundred() {
    let uris: Vec<String> = (0..250).map(|i| format!("spotify:track:{}", i)).collect();
    let adds = add_to_playlist_requests("pl", &uris, Some(7));
    assert_eq!(adds.len(), 3);
    let first: serde_json::Value = serde_json::from_str(body_of(&adds[0].body)).unwrap();
    assert_eq!(first["position"], 7);
    assert_eq!(first["uris"].as_array().unwrap().len(), 100);
    let second: serde_json::Value = serde_json::from_str(body_of(&adds[1].body)).unwrap();
    assert_eq!(second["position"], 107);
    assert_eq!(second["uris"][0], "spotify:track:100");
    let last: serde_json::Value = serde_json::from_str(body_of(&adds[2].body)).unwrap();
    assert_eq!(last["position"], 207);
    assert_eq!(last["uris"].as_array().unwrap().len(), 50);
    assert_eq!(last["uris"][0], "spotify:track:200");
    assert_eq!(adds[1].url, "https://api.spotify.com/v1/playlists/pl/tracks");

    let two = vec!["x".to_string(), "y".to_string()];
    let rem = remove_from_playlist_requests("pl", &two);
    assert_eq!(rem.len(), 1);
    assert!(matches!(rem[0].method, HttpMethod::Delete));
    assert_eq!(body_of(&rem[0].body), r#"{"tracks":[{"uri":"x"},{"uri":"y"}]}"#);
    assert!(add_to_playlist_requests("pl", &Vec::new(), None).is_empty());

    let rep = replace_playlist_requests("pl", &Vec::new());
    assert_eq!(rep.len(), 1);
    assert_eq!(body_of(&rep[0].body), r#"{"uris":[]}"#);
    let rep = replace_playlist_requests("pl", &uris);
    assert_eq!(rep.len(), 3);
    assert!(matches!(rep[0].method, HttpMethod::Put));
    assert!(matches!(rep[2].method, HttpMethod::Post));
}

#[test]
fn snapshot_of_edit_answers() {
    assert_eq!(snapshot_from_body(r#"{"snapshot_id":"s1"}"#).ok().as_deref(), Some("s1"));
    assert_eq!(snapshot_from_body("{}").ok().as_deref(), Some(""));
    match snapshot_from_body("<html>") {
        Err(SpotifyError::Http(m)) => assert_eq!(m, "error decoding response body"),
        _ => panic!("expected a decoding error"),
    }
}

#[test]
fn appended_batches_carry_no_position() {
    let uris: Vec<String> = (0..150).map(|i| format!("u{}", i)).collect();
    let adds = add_to_playlist_requests("pl", &uris, None);
    assert_eq!(adds.len(), 2);
    assert!(!body_of(&adds[1].body).contains("position"));
    let adds = add_to_playlist_requests("pl", &uris, Some(u32::MAX));
    let second: serde_json::Value = serde_json::from_str(body_of(&adds[1].body)).unwrap();
    assert_eq!(second["position"], u32::MAX as u64 + 100);
}
