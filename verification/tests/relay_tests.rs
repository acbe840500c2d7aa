use relay_core::centrifugo::{decode_command, ServerCommand};
use relay_core::config::RelayConfig;
use relay_core::oauth::OAuthError;
use relay_core::relay::{
    act_response, broadcast_response, claim_nonce, claim_request, classify_refresh_failure,
    classify_sign_in_failure, command_name, edit_response, error_response, fetch_response,
    notification, now_playing_info, on_auth_ok, on_auth_start, on_shutdown, playback_error_response,
    plan_command, poll_update, refresh_delay, should_execute, skipped_response, spotify_error_response,
    volume_of, ClaimOutcome, CommandPlan, Fade, FadeAction, FadeEvent, FadePhase, Payload, ReconnectState,
    RelayError, RelayStep, RetryState, MAX_RELAY_RETRIES,
};
use relay_core::spotify::{
    Album, Artist, Device, HttpMethod, Image, NowPlaying, PlaybackState, RequestBody, SpotifyError, Track,
};
use relay_core::state::{AppState, ConnectionStatus};

fn cmd(json: &str) -> ServerCommand {
    decode_command(json, "").unwrap()
}

fn track(uri: &str, name: &str) -> Track {
    Track {
        id: "id".to_string(),
        name: name.to_string(),
        uri: uri.to_string(),
        duration_ms: 200_000,
        artists: vec![
            Artist { id: "a".to_string(), name: "Daft Punk".to_string() },
            Artist { id: "b".to_string(), name: "Pharrell".to_string() },
        ],
        album: Album {
            id: "al".to_string(),
            name: "RAM".to_string(),
            images: vec![Image { url: "http://img/1".to_string(), height: Some(640), width: Some(640) }],
        },
        popularity: 80,
    }
}

fn api_err(status: u16, message: &str) -> SpotifyError {
    SpotifyError::Api { status, message: message.to_string() }
}

#[test]
fn retries_back_off_then_give_up() {
    let mut retry = RetryState::new();
    let mut state = AppState::default();
    let mut steps = Vec::new();
    for _ in 0..MAX_RELAY_RETRIES {
        let step = retry.on_run_end(Err(RelayError::Transient("down".to_string())), false, &mut state);
        steps.push(step);
    }
    let delays: Vec<u64> = steps[..4]
        .iter()
        .map(|s| match s {
            RelayStep::RetryAfter(d) => *d,
            _ => panic!("expected a retry"),
        })
        .collect();
    assert_eq!(delays, vec![2, 4, 8, 16]);
    assert!(matches!(steps[4], RelayStep::GiveUp));
    assert_eq!(retry.attempt, 0);
    assert_eq!(state.last_error.as_deref(), Some("down"));
    assert_eq!(state.websocket_status, ConnectionStatus::Disconnected);
    assert!(notification(&steps[4]).is_some());
    assert!(notification(&steps[0]).is_none());
}

#[test]
fn connected_run_resets_the_retry_counter() {
    let mut retry = RetryState::new();
    let mut state = AppState::default();
    retry.on_run_end(Err(RelayError::Transient("x".to_string())), false, &mut state);
    retry.on_run_end(Err(RelayError::Transient("x".to_string())), false, &mut state);
    assert_eq!(retry.attempt, 2);
    let step = retry.on_run_end(Err(RelayError::Transient("x".to_string())), true, &mut state);
    assert!(matches!(step, RelayStep::RetryAfter(2)));
    assert_eq!(retry.attempt, 1);
}

#[test]
fn needs_auth_stops_without_retry() {
    let mut retry = RetryState::new();
    let mut state = AppState::default();
    state.spotify_status = ConnectionStatus::Connected;
    let step = retry.on_run_end(Err(RelayError::NeedsAuth("revoked".to_string())), false, &mut state);
    assert!(matches!(step, RelayStep::StopNeedsAuth));
    assert_eq!(state.spotify_status, ConnectionStatus::Disconnected);
    let (title, _) = notification(&step).unwrap();
    assert_eq!(title, "Music Relay -- Spotify Authorization Lost");
    assert!(matches!(retry.on_run_end(Ok(()), false, &mut state), RelayStep::Finish));
}

#[test]
fn refresh_failures_are_classified() {
    let e = classify_refresh_failure(&OAuthError::InvalidGrant);
    assert!(matches!(e, RelayError::NeedsAuth(_)));
    assert_eq!(e.message(), "Spotify session expired. Click Reconnect to sign in again.");
    let e = classify_refresh_failure(&OAuthError::TokenRefreshFailed("HTTP 400 - {\"error\":\"invalid_grant\"}".to_string()));
    assert!(matches!(e, RelayError::NeedsAuth(_)));
    let e = classify_refresh_failure(&OAuthError::Http("timeout".to_string()));
    match e {
        RelayError::Transient(m) => assert_eq!(m, "Token refresh failed: HTTP error: timeout"),
        _ => panic!("expected a transient failure"),
    }
    let e = classify_sign_in_failure(&OAuthError::Http("timeout".to_string()));
    assert!(matches!(e, RelayError::NeedsAuth(_)));
}

#[test]
fn reconnect_delays_double_and_reset() {
    let mut rc = ReconnectState::new();
    let mut state = AppState::default();
    rc.on_connecting(&mut state);
    assert_eq!(state.websocket_status, ConnectionStatus::Connecting);
    let d1 = rc.on_token_failed("401", &mut state);
    assert_eq!(state.last_error.as_deref(), Some("Token: 401"));
    let d2 = rc.on_connect_failed("refused", &mut state);
    assert_eq!(state.last_error.as_deref(), Some("WebSocket: refused"));
    let d3 = rc.on_session_end(&mut state);
    let d4 = rc.on_session_end(&mut state);
    let d5 = rc.on_session_end(&mut state);
    assert_eq!(vec![d1, d2, d3, d4, d5], vec![2, 4, 8, 16, 30]);
    rc.on_connected(&mut state);
    assert_eq!(rc.attempt, 0);
    assert!(state.last_error.is_none());
    assert_eq!(state.websocket_status, ConnectionStatus::Connected);
    assert_eq!(rc.on_session_end(&mut state), 2);
}

#[test]
fn auth_and_shutdown_transitions() {
    let mut state = AppState::default();
    state.last_error = Some("old".to_string());
    on_auth_start(&mut state);
    assert_eq!(state.spotify_status, ConnectionStatus::Connecting);
    assert!(state.last_error.is_none());
    on_auth_ok(&mut state);
    assert_eq!(state.spotify_status, ConnectionStatus::Connected);
    state.websocket_status = ConnectionStatus::Connected;
    on_shutdown(&mut state, false);
    assert_eq!(state.websocket_status, ConnectionStatus::Connected);
    on_shutdown(&mut state, true);
    assert_eq!(state.websocket_status, ConnectionStatus::Disconnected);
    assert_eq!(state.spotify_status, ConnectionStatus::Disconnected);
}

#[test]
fn proactive_refresh_one_hour_before_expiry() {
    assert_eq!(refresh_delay(Some(10_000), 1_000), Some(5_400));
    assert_eq!(refresh_delay(Some(4_600), 1_000), None);
    assert_eq!(refresh_delay(Some(100), 0), None);
    assert_eq!(refresh_delay(None, 0), None);
}

#[test]
fn claims_gate_only_mutating_commands_with_nonce() {
    let pause = cmd(r#"{"command":"pause","id":"1","nonce":"n"}"#);
    assert_eq!(claim_nonce(&pause), Some("n"));
    assert!(!should_execute(&pause, &Some(ClaimOutcome::Status(409))));
    assert!(should_execute(&pause, &Some(ClaimOutcome::Status(200))));
    assert!(should_execute(&pause, &Some(ClaimOutcome::Status(500))));
    assert!(should_execute(&pause, &Some(ClaimOutcome::Failed)));
    assert!(should_execute(&pause, &None));
    let read = cmd(r#"{"command":"get_queue","id":"2","nonce":"n"}"#);
    assert_eq!(claim_nonce(&read), None);
    assert!(should_execute(&read, &Some(ClaimOutcome::Status(409))));
    let no_nonce = cmd(r#"{"command":"skip_next","id":"3"}"#);
    assert!(should_execute(&no_nonce, &Some(ClaimOutcome::Status(409))));
    let mut config = RelayConfig::default();
    config.server_url = "https://srv".to_string();
    let (url, body) = claim_request(&config, "abc");
    assert_eq!(url, "https://srv/api/connector/claim-command");
    assert_eq!(body, r#"{"nonce":"abc"}"#);
    let skipped = skipped_response(&pause);
    assert_eq!(skipped.to_json(), r#"{"id":"1","result":{}}"#);
}

#[test]
fn command_names_match_wire_tags() {
    assert_eq!(command_name(&cmd(r#"{"command":"fade_skip","id":"f"}"#)), "fade_skip");
    assert_eq!(command_name(&cmd(r#"{"command":"get_current_user","id":"u"}"#)), "get_current_user");
}

#[test]
fn error_responses_map_spotify_statuses() {
    let r = playback_error_response("1".to_string(), &api_err(404, "nothing"));
    assert_eq!(r.to_json(), r#"{"error":{"code":"no_device","message":"No active Spotify device"},"id":"1"}"#);
    let r = playback_error_response("1".to_string(), &api_err(403, "premium required"));
    assert_eq!(r.error.unwrap().code, "forbidden");
    let r = playback_error_response("1".to_string(), &api_err(429, "slow down"));
    assert_eq!(r.error.unwrap().message, "slow down");
    let r = playback_error_response("1".to_string(), &api_err(500, "boom"));
    let e = r.error.unwrap();
    assert_eq!(e.code, "spotify_error");
    assert_eq!(e.message, "Spotify API error: 500 boom");
    let r = spotify_error_response("2".to_string(), &api_err(404, "gone"));
    assert_eq!(r.error.unwrap().code, "spotify_error");
    let r = error_response("3".to_string(), "bad", "worse");
    assert_eq!(r.to_json(), r#"{"error":{"code":"bad","message":"worse"},"id":"3"}"#);
}

#[test]
fn outcome_responses() {
    let r = fetch_response("f".to_string(), Ok("[1]".to_string()));
    assert_eq!(r.to_json(), r#"{"id":"f","result":[1]}"#);
    let r = fetch_response("f".to_string(), Err(SpotifyError::NotAuthenticated));
    assert_eq!(r.error.unwrap().message, "Not authenticated");
    let r = act_response("a".to_string(), "{}".to_string(), true, Err(api_err(404, "x")));
    assert_eq!(r.error.unwrap().code, "no_device");
    let r = act_response("a".to_string(), "{}".to_string(), false, Err(api_err(404, "x")));
    assert_eq!(r.error.unwrap().code, "spotify_error");
    let r = act_response("a".to_string(), "{\"success\":true}".to_string(), false, Ok(()));
    assert_eq!(r.result.as_deref(), Some("{\"success\":true}"));
    let r = edit_response("e".to_string(), Ok("snap\"1".to_string()));
    assert_eq!(r.result.as_deref(), Some(r#"{"snapshot_id":"snap\"1"}"#));
}

#[test]
fn plans_for_commands() {
    let (id, plan) = plan_command(cmd(r#"{"command":"search","id":"s","query":"a b&c"}"#));
    assert_eq!(id, "s");
    match plan {
        CommandPlan::Fetch { request, payload } => {
            assert!(matches!(request.method, HttpMethod::Get));
            assert_eq!(request.url, "https://api.spotify.com/v1/search?q=a%20b%26c&type=track&limit=20");
            assert!(matches!(payload, Payload::Search));
        }
        _ => panic!("expected a fetch"),
    }
    let (_, plan) = plan_command(cmd(r#"{"command":"add_to_queue","id":"q","track_uri":"spotify:track:1"}"#));
    match plan {
        CommandPlan::Act { request, result, playback } => {
            assert_eq!(request.url, "https://api.spotify.com/v1/me/player/queue?uri=spotify%3Atrack%3A1");
            assert!(matches!(request.body, RequestBody::Empty));
            assert_eq!(result, "{\"success\":true}");
            assert!(!playback);
        }
        _ => panic!("expected an action"),
    }
    let (_, plan) = plan_command(cmd(r#"{"command":"get_playlist_tracks","id":"t","playlist_id":"p"}"#));
    match plan {
        CommandPlan::Fetch { request, .. } => assert!(request.url.contains("/playlists/p/tracks?offset=0&limit=100&fields=")),
        _ => panic!("expected a fetch"),
    }
    let uris: Vec<String> = (0..150).map(|i| format!("\"u{}\"", i)).collect();
    let doc = format!(r#"{{"command":"replace_playlist","id":"r","playlist_id":"p","uris":[{}]}}"#, uris.join(","));
    let (_, plan) = plan_command(cmd(&doc));
    match plan {
        CommandPlan::Edit { requests } => {
            assert_eq!(requests.len(), 2);
            assert!(matches!(requests[0].method, HttpMethod::Put));
            assert!(matches!(requests[1].method, HttpMethod::Post));
        }
        _ => panic!("expected an edit"),
    }
    let (_, plan) = plan_command(cmd(r#"{"command":"create_playlist","id":"c","name":"N"}"#));
    assert!(matches!(plan, CommandPlan::CreatePlaylist { public: false, description: None, .. }));
    let (_, plan) = plan_command(cmd(r#"{"command":"fade_pause","id":"fp"}"#));
    assert!(matches!(plan, CommandPlan::Fade { pause: true }));
    let (_, plan) = plan_command(cmd(r#"{"command":"get_current_user","id":"me"}"#));
    assert!(matches!(plan, CommandPlan::CurrentUser));
    let (_, plan) = plan_command(cmd(r#"{"command":"set_volume","id":"v","volume_percent":150}"#));
    match plan {
        CommandPlan::Act { request, playback, .. } => {
            assert_eq!(request.url, "https://api.spotify.com/v1/me/player/volume?volume_percent=100");
            assert!(playback);
        }
        _ => panic!("expected an action"),
    }
}

#[test]
fn fade_skip_steps_down_and_restores() {
    let mut fade = Fade::new("f1".to_string(), false);
    assert!(matches!(fade.start(), FadeAction::ReadVolume));
    let mut volumes = Vec::new();
    let mut a = fade.on_event(FadeEvent::Volume(Some(50)));
    while let FadeAction::StepVolume(v) = a {
        volumes.push(v);
        a = fade.on_event(FadeEvent::Stepped);
    }
    assert_eq!(volumes, vec![40, 30, 20, 10, 0]);
    assert!(matches!(a, FadeAction::Act));
    let a = fade.on_event(FadeEvent::Acted(Ok(())));
    assert!(matches!(a, FadeAction::Restore { volume: 50, delay_ms: 500 }));
    match fade.on_event(FadeEvent::Restored(true)) {
        FadeAction::Respond(r) => assert_eq!(r.to_json(), r#"{"id":"f1","result":{}}"#),
        _ => panic!("expected a response"),
    }
    assert!(matches!(fade.phase, FadePhase::Done));
}

#[test]
fn fade_pause_without_volume_warns() {
    let mut fade = Fade::new("f2".to_string(), true);
    fade.start();
    assert!(matches!(fade.on_event(FadeEvent::Volume(None)), FadeAction::Act));
    match fade.on_event(FadeEvent::Acted(Ok(()))) {
        FadeAction::Respond(r) => assert_eq!(r.result.as_deref(), Some(r#"{"warning":"Could not read volume"}"#)),
        _ => panic!("expected a response"),
    }
}

#[test]
fn fade_failure_restores_and_reports() {
    let mut fade = Fade::new("f3".to_string(), true);
    fade.start();
    let mut a = fade.on_event(FadeEvent::Volume(Some(10)));
    while let FadeAction::StepVolume(_) = a {
        a = fade.on_event(FadeEvent::Stepped);
    }
    match fade.on_event(FadeEvent::Acted(Err(api_err(404, "x")))) {
        FadeAction::RestoreAndRespond { volume, response } => {
            assert_eq!(volume, 10);
            assert_eq!(response.error.unwrap().code, "no_device");
        }
        _ => panic!("expected restore and respond"),
    }
    let mut fade = Fade::new("f4".to_string(), true);
    fade.start();
    fade.on_event(FadeEvent::Volume(Some(0)));
    let mut a = fade.on_event(FadeEvent::Stepped);
    while let FadeAction::StepVolume(_) = a {
        a = fade.on_event(FadeEvent::Stepped);
    }
    assert!(matches!(fade.on_event(FadeEvent::Acted(Ok(()))), FadeAction::Restore { volume: 0, delay_ms: 0 }));
    match fade.on_event(FadeEvent::Restored(false)) {
        FadeAction::Respond(r) => assert_eq!(r.result.as_deref(), Some(r#"{"warning":"Could not restore volume"}"#)),
        _ => panic!("expected a response"),
    }
}

#[test]
fn volume_is_read_from_active_device() {
    let st = PlaybackState {
        is_playing: true,
        progress_ms: None,
        item: None,
        context: None,
        shuffle_state: None,
        device: Some(Device { id: None, name: "d".to_string(), is_active: true, volume_percent: Some(70) }),
    };
    assert_eq!(volume_of(&Ok(Some(st))), Some(70));
    assert_eq!(volume_of(&Ok(None)), None);
    assert_eq!(volume_of(&Err(SpotifyError::NotAuthenticated)), None);
}

#[test]
fn now_playing_summary_and_polling() {
    let np = NowPlaying { is_playing: true, progress_ms: Some(1_000), item: Some(track("spotify:track:1", "Get Lucky")) };
    let info = now_playing_info(&np).unwrap();
    assert_eq!(info.artist_name, "Daft Punk, Pharrell");
    assert_eq!(info.album_art_url.as_deref(), Some("http://img/1"));
    assert_eq!(info.duration_ms, 200_000);
    assert!(now_playing_info(&NowPlaying { is_playing: false, progress_ms: None, item: None }).is_none());

    let mut last = None;
    let mut state = AppState::default();
    let b = poll_update(Ok(Some(np)), &mut last, &mut state);
    assert_eq!(b.unwrap().track_name, "Get Lucky");
    assert_eq!(last.as_deref(), Some("spotify:track:1"));
    assert_eq!(state.now_playing.as_ref().unwrap().track_uri, "spotify:track:1");
    let np2 = NowPlaying { is_playing: false, progress_ms: Some(2_000), item: Some(track("spotify:track:1", "Get Lucky")) };
    assert!(poll_update(Ok(Some(np2)), &mut last, &mut state).is_none());
    assert!(!state.now_playing.as_ref().unwrap().is_playing);
    let stopped = poll_update(Ok(None), &mut last, &mut state).unwrap();
    assert!(!stopped.is_playing);
    assert_eq!(stopped.track_name, "");
    assert!(last.is_none());
    assert!(state.now_playing.is_none());
    assert!(poll_update(Ok(None), &mut last, &mut state).is_none());
    assert!(poll_update(Err(api_err(500, "x")), &mut last, &mut state).is_none());
    assert_eq!(state.last_error.as_deref(), Some("Spotify: Spotify API error: 500 x"));
}

#[test]
fn broadcast_wraps_summary() {
    let np = NowPlaying { is_playing: true, progress_ms: None, item: Some(track("u", "T")) };
    let info = now_playing_info(&np).unwrap();
    let r = broadcast_response(&info);
    assert_eq!(r.id, "");
    let v: serde_json::Value = serde_json::from_str(r.result.as_deref().unwrap()).unwrap();
    assert_eq!(v["type"], "now_playing");
    assert_eq!(v["data"]["track_name"], "T");
    assert_eq!(v["data"]["progress_ms"], serde_json::Value::Null);
}

#[test]
fn track_disappearing_broadcasts_stop() {
    let mut last = None;
    let mut state = AppState::default();
    let np = NowPlaying { is_playing: true, progress_ms: None, item: Some(track("spotify:track:7", "Song")) };
    assert!(poll_update(Ok(Some(np)), &mut last, &mut state).is_some());
    let empty = NowPlaying { is_playing: false, progress_ms: None, item: None };
    let stopped = poll_update(Ok(Some(empty)), &mut last, &mut state).unwrap();
    assert_eq!(stopped.track_uri, "");
    assert!(!stopped.is_playing);
    assert_eq!(stopped.duration_ms, 0);
    assert!(last.is_none());
    assert!(state.now_playing.is_none());
    let empty = NowPlaying { is_playing: false, progress_ms: None, item: None };
    assert!(poll_update(Ok(Some(empty)), &mut last, &mut state).is_none());
}
