use relay_core::centrifugo::{
    backoff_delay, decode_command, handle_connect_reply, handle_subscribe_reply, on_handshake_message,
    on_message, on_reply, on_text_frame, ping_timeout_secs, CentrifugoClient, CentrifugoError, CommandError,
    CommandResponse, ConnectResult, FrameAction, HandshakeStep, LoopStep, ProtoError, Publication, Push,
    PushAction, Reply, ServerCommand, WsMessage,
    MAX_BACKOFF_SECS,
};

#[test]
fn backoff_doubles_then_caps() {
    let got: Vec<u64> = (0..8).map(backoff_delay).collect();
    assert_eq!(got, vec![2, 4, 8, 16, 30, 30, 30, 30]);
    assert_eq!(backoff_delay(u32::MAX), MAX_BACKOFF_SECS);
}

#[test]
fn decode_simple_commands() {
    let c = decode_command(r#"{"command":"get_now_playing","id":"a1"}"#, "").unwrap();
    assert!(matches!(c, ServerCommand::GetNowPlaying { ref id, nonce: None } if id == "a1"));
    let c = decode_command(r#"{"command":"pause","id":"p","nonce":"n-1"}"#, "").unwrap();
    assert_eq!(c.id(), "p");
    assert_eq!(c.nonce(), Some("n-1"));
    assert!(c.is_mutating());
    let c = decode_command(r#"{"command":"get_queue","id":"q"}"#, "").unwrap();
    assert!(!c.is_mutating());
    assert_eq!(c.nonce(), None);
}

#[test]
fn decode_commands_with_members() {
    let c = decode_command(r#"{"command":"search","id":"s","query":"daft punk"}"#, "").unwrap();
    assert!(matches!(c, ServerCommand::Search { ref query, .. } if query == "daft punk"));
    let c = decode_command(r#"{"command":"set_volume","id":"v","volume_percent":40}"#, "").unwrap();
    assert!(matches!(c, ServerCommand::SetVolume { volume_percent: 40, .. }));
    let c = decode_command(
        r#"{"command":"add_to_playlist","id":"x","playlist_id":"pl","uris":["u1","u2"],"position":3}"#,
        "",
    )
    .unwrap();
    match c {
        ServerCommand::AddToPlaylist { playlist_id, uris, position, .. } => {
            assert_eq!(playlist_id, "pl");
            assert_eq!(uris, vec!["u1".to_string(), "u2".to_string()]);
            assert_eq!(position, Some(3));
        }
        _ => panic!("wrong variant"),
    }
    let c = decode_command(
        r#"{"command":"get_playlist_tracks","id":"t","playlist_id":"pl","offset":null}"#,
        "",
    )
    .unwrap();
    assert!(matches!(c, ServerCommand::GetPlaylistTracks { offset: None, limit: None, .. }));
    let c = decode_command(
        r#"{"command":"create_playlist","id":"c","name":"Mix","description":"d","public":false}"#,
        "",
    )
    .unwrap();
    match c {
        ServerCommand::CreatePlaylist { name, description, public, .. } => {
            assert_eq!(name, "Mix");
            assert_eq!(description.as_deref(), Some("d"));
            assert_eq!(public, Some(false));
        }
        _ => panic!("wrong variant"),
    }
}

#[test]
fn decode_rejects_bad_commands() {
    assert!(decode_command(r#"{"command":"explode","id":"a"}"#, "").is_none());
    assert!(decode_command(r#"{"command":"search","id":"a"}"#, "").is_none());
    assert!(decode_command(r#"{"command":"pause"}"#, "").is_none());
    assert!(decode_command(r#"{"command":"pause","id":7}"#, "").is_none());
    assert!(decode_command(r#"{"command":"set_volume","id":"v","volume_percent":-1}"#, "").is_none());
    assert!(decode_command(r#"["pause"]"#, "").is_none());
    assert!(decode_command("not json", "").is_none());
}

#[test]
fn decode_at_nested_pointer() {
    let doc = r#"{"push":{"pub":{"data":{"command":"skip_next","id":"k"}}}}"#;
    let c = decode_command(doc, "/push/pub/data").unwrap();
    assert!(matches!(c, ServerCommand::SkipNext { .. }));
}

#[test]
fn response_json_is_sorted_and_escaped() {
    let ok = CommandResponse { id: "a\"b".to_string(), result: Some("{\"x\":1}".to_string()), error: None };
    assert_eq!(ok.to_json(), r#"{"id":"a\"b","result":{"x":1}}"#);
    let err = CommandResponse {
        id: "7".to_string(),
        result: None,
        error: Some(CommandError { code: "NOT_FOUND".to_string(), message: "no".to_string() }),
    };
    assert_eq!(err.to_json(), r#"{"error":{"code":"NOT_FOUND","message":"no"},"id":"7"}"#);
    let v: serde_json::Value = serde_json::from_str(&err.to_json()).unwrap();
    assert_eq!(v["error"]["code"], "NOT_FOUND");
}

#[test]
fn client_commands_take_successive_ids() {
    let mut c = CentrifugoClient::new("ws://h".to_string(), "tok".to_string(), "relay:1".to_string());
    assert_eq!(
        c.connect_command("1.6.0"),
        r#"{"id":1,"connect":{"token":"tok","name":"music-relay","version":"1.6.0"}}"#
    );
    assert_eq!(c.subscribe_command(), r#"{"id":2,"subscribe":{"channel":"relay:1"}}"#);
    let resp = CommandResponse { id: "q".to_string(), result: Some("true".to_string()), error: None };
    assert_eq!(
        c.publish_command(&resp),
        r#"{"id":3,"publish":{"channel":"relay:1","data":{"id":"q","result":true}}}"#
    );
    assert_eq!(c.next_id(), 4);
    c.next_id = u32::MAX;
    assert_eq!(c.next_id(), u32::MAX);
    assert_eq!(c.next_id, 0);
}

fn reply() -> Reply {
    Reply { id: 1, connect: None, subscribe: None, publish: None, error: None, push: None }
}

fn rejected(code: u32, message: &str) -> Reply {
    Reply { error: Some(ProtoError { code, message: message.to_string() }), ..reply() }
}

#[test]
fn connect_reply_outcomes() {
    let r = Reply {
        connect: Some(ConnectResult { client: "c".to_string(), ping: Some(10), pong: Some(true) }),
        ..reply()
    };
    let p = handle_connect_reply(Ok(r)).ok().unwrap();
    assert_eq!(p.ping_interval, 10);
    assert!(p.send_pong);
    let r = Reply { connect: Some(ConnectResult { client: String::new(), ping: None, pong: None }), ..reply() };
    let p = handle_connect_reply(Ok(r)).ok().unwrap();
    assert_eq!(p.ping_interval, 25);
    assert!(!p.send_pong);
    let p = handle_connect_reply(Ok(reply())).ok().unwrap();
    assert_eq!(p.ping_interval, 25);
    match handle_connect_reply(Ok(rejected(101, "unauthorized"))) {
        Err(e @ CentrifugoError::ConnectRejected(_)) => {
            assert_eq!(e.message(), "Connect rejected: code 101: unauthorized")
        }
        _ => panic!("expected a rejection"),
    }
    let parse_error = "invalid type: string \"one\", expected u32 at line 1 column 11".to_string();
    match handle_connect_reply(Err(parse_error.clone())) {
        Err(e @ CentrifugoError::Serde(_)) => {
            assert_eq!(e.message(), format!("Serialization error: {}", parse_error))
        }
        _ => panic!("expected the parse error"),
    }
}

#[test]
fn subscribe_reply_outcomes() {
    assert!(handle_subscribe_reply(Ok(reply())).is_ok());
    match handle_subscribe_reply(Ok(rejected(103, "permission denied"))) {
        Err(CentrifugoError::SubscribeRejected(m)) => assert_eq!(m, "code 103: permission denied"),
        _ => panic!("expected a rejection"),
    }
    match handle_subscribe_reply(Err("EOF while parsing".to_string())) {
        Err(CentrifugoError::Serde(m)) => assert_eq!(m, "EOF while parsing"),
        _ => panic!("expected the parse error"),
    }
}

fn pushed(data: &str) -> Reply {
    Reply {
        push: Some(Push {
            channel: Some("relay".to_string()),
            publication: Some(Publication { data: data.to_string() }),
        }),
        ..reply()
    }
}

#[test]
fn replies_carry_commands() {
    match on_reply(Ok(pushed(r#"{"command":"resume","id":"r9"}"#))) {
        PushAction::Command(c) => assert_eq!(c.id(), "r9"),
        _ => panic!("expected a command"),
    }
    assert!(matches!(on_reply(Ok(pushed(r#"{"hello":"world"}"#))), PushAction::Unparsed));
    assert!(matches!(on_reply(Ok(reply())), PushAction::Ignore));
    let no_pub = Reply { push: Some(Push { channel: None, publication: None }), ..reply() };
    assert!(matches!(on_reply(Ok(no_pub)), PushAction::Ignore));
    assert!(matches!(on_reply(Err("expected value".to_string())), PushAction::Ignore));
}

#[test]
fn ping_timeout_is_twice_interval() {
    assert_eq!(ping_timeout_secs(25), 50);
    assert_eq!(ping_timeout_secs(u32::MAX), 2 * u32::MAX as u64);
}

#[test]
fn text_frames_are_classified() {
    assert!(matches!(on_text_frame(" {} \n", true), FrameAction::SendPong));
    assert!(matches!(on_text_frame("{}", false), FrameAction::Ignore));
    match on_text_frame("  {\"id\":4,\"publish\":{}}\r\n", true) {
        FrameAction::ParseReply(t) => assert_eq!(t, "{\"id\":4,\"publish\":{}}"),
        _ => panic!("expected a reply to parse"),
    }
    assert!(matches!(on_text_frame("garbage", false), FrameAction::ParseReply(_)));
}

#[test]
fn decoded_command_keeps_tag_id_and_nonce() {
    let tags = [
        "get_now_playing", "get_queue", "get_playback_state", "get_current_user", "pause", "resume",
        "skip_next", "skip_previous", "fade_skip", "fade_pause",
    ];
    for tag in tags {
        let doc = format!(r#"{{"command":"{}","id":"id-{}","nonce":"n-{}"}}"#, tag, tag, tag);
        let c = decode_command(&doc, "").unwrap();
        assert_eq!(relay_core::relay::command_name(&c), tag);
        assert_eq!(c.id(), format!("id-{}", tag));
        assert_eq!(c.nonce(), Some(format!("n-{}", tag).as_str()));
    }
}

#[test]
fn handshake_reads_skip_pings() {
    assert!(matches!(on_handshake_message(WsMessage::Ping(vec![1])), HandshakeStep::Continue));
    assert!(matches!(on_handshake_message(WsMessage::Other), HandshakeStep::Continue));
    match on_handshake_message(WsMessage::Text("{\"id\":1}".to_string())) {
        HandshakeStep::Reply(t) => assert_eq!(t, "{\"id\":1}"),
        _ => panic!("expected the reply"),
    }
    assert!(matches!(on_handshake_message(WsMessage::Close), HandshakeStep::Stop(CentrifugoError::Closed)));
    assert!(matches!(on_handshake_message(WsMessage::Ended), HandshakeStep::Stop(CentrifugoError::Closed)));
    match on_handshake_message(WsMessage::Failed("reset".to_string())) {
        HandshakeStep::Stop(e) => assert_eq!(e.message(), "WebSocket error: reset"),
        _ => panic!("expected a stop"),
    }
}

#[test]
fn loop_reads_are_dispatched() {
    match on_message(WsMessage::Ping(vec![7, 8]), false) {
        LoopStep::Pong(d) => assert_eq!(d, vec![7, 8]),
        _ => panic!("expected a pong"),
    }
    assert!(matches!(on_message(WsMessage::Text("{}".to_string()), true), LoopStep::Frame(FrameAction::SendPong)));
    assert!(matches!(on_message(WsMessage::Other, true), LoopStep::Continue));
    assert!(matches!(on_message(WsMessage::Close, true), LoopStep::Stop(CentrifugoError::Closed)));
    assert!(matches!(on_message(WsMessage::Failed("x".to_string()), true), LoopStep::Stop(CentrifugoError::WebSocket(_))));
}

#[test]
fn error_texts() {
    assert_eq!(CentrifugoError::ConnectionFailed("dns".to_string()).message(), "Connection failed: dns");
    assert_eq!(CentrifugoError::Serde("bad".to_string()).message(), "Serialization error: bad");
    assert_eq!(CentrifugoError::SubscribeRejected("no".to_string()).message(), "Subscribe rejected: no");
    assert_eq!(CentrifugoError::Closed.message(), "Connection closed");
    assert_eq!(relay_core::token::TokenError::InvalidJwt("x".to_string()).message(), "Invalid JWT: x");
    assert_eq!(relay_core::token::TokenError::Http("y".to_string()).message(), "HTTP error: y");
    assert_eq!(relay_core::spotify::SpotifyError::RefreshFailed("r".to_string()).message(), "Token refresh failed: r");
    assert_eq!(relay_core::spotify::SpotifyError::Http("h".to_string()).message(), "HTTP error: h");
    assert_eq!(relay_core::spotify::SpotifyError::NotAuthenticated.message(), "Not authenticated");
}

#[test]
fn decode_array_form_by_position() {
    let c = decode_command(r#"["pause","p1"]"#, "").unwrap();
    assert!(matches!(c, ServerCommand::Pause { ref id, nonce: None } if id == "p1"));
    let c = decode_command(r#"["pause","p1","n-2"]"#, "").unwrap();
    assert_eq!(c.nonce(), Some("n-2"));
    assert!(decode_command(r#"["pause","p1","n-2","extra"]"#, "").is_none());
    assert!(decode_command(r#"["get_playlist_tracks","t","pl"]"#, "").is_none());
    let c = decode_command(r#"["get_playlist_tracks","t","pl",null,5]"#, "").unwrap();
    assert!(matches!(c, ServerCommand::GetPlaylistTracks { offset: None, limit: Some(5), nonce: None, .. }));
    let c = decode_command(r#"["search","s","lofi","n"]"#, "").unwrap();
    assert!(matches!(c, ServerCommand::Search { ref query, .. } if query == "lofi"));
    assert!(decode_command("[]", "").is_none());
    assert!(decode_command(r#"[7,"x"]"#, "").is_none());
    assert!(decode_command(r#"{"command":13,"id":"x"}"#, "").is_none());
    let c = decode_command(r#"["create_playlist","c","Mix",null,true]"#, "").unwrap();
    assert!(matches!(c, ServerCommand::CreatePlaylist { description: None, public: Some(true), .. }));
}
