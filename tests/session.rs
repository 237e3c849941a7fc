use dj_client::messages::{
    AuthErrorMessage, AuthSuccessMessage, CodeAuthMessage, DjAuthMessage, GoingOfflineMessage,
    PatternConfigInfo, ServerMessage, StatusUpdateMessage, StreamRouteMessage, VoiceAudioMessage, VoiceStatusMessage,
};
use dj_client::session::{
    auth_message, handle_server_message, handshake_step, next_reconnect, reconnect_delay_secs,
    resolve_direct_mc_route, AuthMessage, ClientError, ConnectionState, DjClientConfig,
    HandshakeEvent, HandshakeStep, ReconnectDecision, MAX_RECONNECT_ATTEMPTS,
};

fn auth_success(route_mode: Option<&str>, entity_count: Option<Option<u32>>) -> AuthSuccessMessage {
    AuthSuccessMessage {
        dj_id: "abc".to_string(),
        dj_name: "DJ Test".to_string(),
        is_active: true,
        current_pattern: None,
        pattern_config: entity_count.map(|n| PatternConfigInfo { entity_count: n }),
        route_mode: route_mode.map(|m| m.to_string()),
    }
}

#[test]
fn default_config_uses_expected_connection_settings() {
    let config = DjClientConfig::default();

    assert_eq!(config.server_host, "localhost");
    assert_eq!(config.server_port, 9000);
    assert_eq!(config.dj_name, "DJ");
    assert_eq!(config.max_reconnect_attempts, 10);
    assert_eq!(config.reconnect_delay_ms, 2000);
    assert_eq!(config.heartbeat_interval_ms, 2000);
    assert!(config.connect_code.is_none());
    assert!(config.dj_id.is_none());
    assert!(config.dj_key.is_none());
}

#[test]
fn new_connection_state_is_disconnected() {
    let state = ConnectionState::new();
    assert!(!state.connected);
    assert!(!state.authenticated);
    assert!(!state.is_active);
    assert!(state.dj_id.is_none());
    assert_eq!(state.route_mode, "");
    assert!(state.mc_host.is_none());
    assert!(state.mc_port.is_none());
    assert!(state.mc_zone.is_none());
    assert!(state.mc_entity_count.is_none());
    assert!(!state.voice_available);
    assert!(!state.voice_streaming);
}

#[test]
fn message_constructors_set_wire_types() {
    let code = CodeAuthMessage::new("BEAT-7K3M".to_string(), "DJ Spark".to_string());
    assert_eq!(code.msg_type, "code_auth");
    assert_eq!(code.code, "BEAT-7K3M");
    assert_eq!(code.dj_name, "DJ Spark");
    let auth = DjAuthMessage::new("dj_1".to_string(), "key_1".to_string(), "DJ".to_string());
    assert_eq!(auth.msg_type, "dj_auth");
    assert_eq!(auth.dj_id, "dj_1");
    assert_eq!(auth.dj_key, "key_1");
    assert!(auth.direct_mode.is_none());
    assert_eq!(GoingOfflineMessage::new().msg_type, "going_offline");
    let voice = VoiceAudioMessage::new("AAAA".to_string(), 7, "pcm".to_string());
    assert_eq!(voice.msg_type, "voice_audio");
    assert_eq!((voice.data.as_str(), voice.seq, voice.codec.as_str()), ("AAAA", 7, "pcm"));
}

#[test]
fn connect_code_wins_over_credentials() {
    let mut config = DjClientConfig::default();
    config.connect_code = Some("BEAT-7K3M".to_string());
    config.dj_id = Some("dj_1".to_string());
    config.dj_key = Some("key_1".to_string());
    match auth_message(&config) {
        Ok(AuthMessage::Code(m)) => {
            assert_eq!(m.code, "BEAT-7K3M");
            assert_eq!(m.dj_name, "DJ");
        }
        _ => panic!("expected code auth"),
    }
}

#[test]
fn credentials_need_both_id_and_key() {
    let mut config = DjClientConfig::default();
    config.dj_id = Some("dj_1".to_string());
    assert!(matches!(
        auth_message(&config),
        Err(ClientError::AuthenticationFailed(ref e))
            if e == "No credentials provided. Set a connect code or DJ ID/key in settings."
    ));
    config.dj_key = Some("key_1".to_string());
    match auth_message(&config) {
        Ok(AuthMessage::Credentials(m)) => {
            assert_eq!(m.msg_type, "dj_auth");
            assert_eq!(m.dj_id, "dj_1");
            assert_eq!(m.dj_key, "key_1");
        }
        _ => panic!("expected credential auth"),
    }
}

#[test]
fn auth_success_updates_identity_and_route() {
    let mut state = ConnectionState::new();
    state.mc_entity_count = Some(9);
    let reply = handle_server_message(&mut state, ServerMessage::AuthSuccess(auth_success(Some("dual"), None)));
    assert!(!reply);
    assert!(state.authenticated);
    assert!(state.is_active);
    assert_eq!(state.dj_id.as_deref(), Some("abc"));
    assert_eq!(state.route_mode, "dual");
    assert_eq!(state.mc_entity_count, Some(9));

    handle_server_message(&mut state, ServerMessage::AuthSuccess(auth_success(None, Some(None))));
    assert_eq!(state.route_mode, "dual");
    assert_eq!(state.mc_entity_count, None);
}

#[test]
fn server_messages_update_state() {
    let mut state = ConnectionState::new();
    handle_server_message(&mut state, ServerMessage::StatusUpdate(StatusUpdateMessage { is_active: true }));
    assert!(state.is_active);
    handle_server_message(&mut state, ServerMessage::HeartbeatAck { latency_ms: 42 });
    assert_eq!(state.latency_ms, 42);
    state.authenticated = true;
    handle_server_message(&mut state, ServerMessage::AuthError(AuthErrorMessage { error: "bad".to_string() }));
    assert!(!state.authenticated);
    assert!(handle_server_message(&mut state, ServerMessage::ClockSyncRequest));
    assert!(!handle_server_message(&mut state, ServerMessage::PresetSync));
}

#[test]
fn stream_route_sets_direct_route_fields() {
    let mut state = ConnectionState::new();
    let route = StreamRouteMessage {
        route_mode: "dual".to_string(),
        is_active: Some(true),
        minecraft_host: Some("127.0.0.1".to_string()),
        minecraft_port: Some(8765),
        zone: Some("main".to_string()),
        entity_count: None,
        pattern_config: Some(PatternConfigInfo { entity_count: Some(24) }),
    };
    handle_server_message(&mut state, ServerMessage::StreamRoute(route));
    assert_eq!(state.route_mode, "dual");
    assert!(state.is_active);
    assert_eq!(state.mc_host.as_deref(), Some("127.0.0.1"));
    assert_eq!(state.mc_port, Some(8765));
    assert_eq!(state.mc_zone.as_deref(), Some("main"));
    assert_eq!(state.mc_entity_count, Some(24));

    let route = resolve_direct_mc_route(&state).unwrap();
    assert_eq!(route.host, "127.0.0.1");
    assert_eq!(route.port, 8765);
    assert_eq!(route.zone, "main");
    assert_eq!(route.entity_count, 24);
}

#[test]
fn direct_route_needs_dual_mode_activity_host_and_port() {
    let mut state = ConnectionState::new();
    state.route_mode = "dual".to_string();
    state.is_active = true;
    state.mc_host = Some("mc.example.com".to_string());
    assert!(resolve_direct_mc_route(&state).is_none());
    state.mc_port = Some(25565);
    let route = resolve_direct_mc_route(&state).unwrap();
    assert_eq!(route.zone, "main");
    assert_eq!(route.entity_count, 16);
    state.mc_entity_count = Some(0);
    assert_eq!(resolve_direct_mc_route(&state).unwrap().entity_count, 1);
    state.is_active = false;
    assert!(resolve_direct_mc_route(&state).is_none());
    state.is_active = true;
    state.route_mode = "relay".to_string();
    assert!(resolve_direct_mc_route(&state).is_none());
}

#[test]
fn handshake_follows_auth_then_clock_sync() {
    let mut state = ConnectionState::new();
    assert!(matches!(
        handshake_step(&mut state, HandshakeEvent::AuthSuccess(auth_success(None, None))),
        HandshakeStep::Continue
    ));
    assert!(state.authenticated);
    assert!(matches!(handshake_step(&mut state, HandshakeEvent::StatusUpdate(Some(false))), HandshakeStep::Continue));
    assert!(!state.is_active);
    assert!(matches!(handshake_step(&mut state, HandshakeEvent::Ignored), HandshakeStep::Continue));
    assert!(matches!(
        handshake_step(&mut state, HandshakeEvent::ClockSyncRequest),
        HandshakeStep::ReplyClockSyncAndFinish
    ));
}

#[test]
fn handshake_failures_and_timeout() {
    let mut state = ConnectionState::new();
    match handshake_step(&mut state, HandshakeEvent::AuthError("Invalid code".to_string())) {
        HandshakeStep::Fail(ClientError::AuthenticationFailed(e)) => assert_eq!(e, "Invalid code"),
        _ => panic!("expected auth failure"),
    }
    match handshake_step(&mut state, HandshakeEvent::Closed) {
        HandshakeStep::Fail(ClientError::ConnectionFailed(e)) => {
            assert_eq!(e, "Connection closed during handshake")
        }
        _ => panic!("expected connection failure"),
    }
    assert!(matches!(handshake_step(&mut state, HandshakeEvent::TimedOut), HandshakeStep::FinishWithoutSync));
}

#[test]
fn reconnect_backoff_sequence() {
    let mut delays = Vec::new();
    let mut attempts = 0u32;
    loop {
        match next_reconnect(false, attempts) {
            ReconnectDecision::Retry { attempt, delay_secs } => {
                assert_eq!(attempt, attempts + 1);
                delays.push(delay_secs);
                attempts = attempt;
            }
            ReconnectDecision::GiveUp => break,
            ReconnectDecision::Stop => panic!("no shutdown was requested"),
        }
    }
    assert_eq!(delays, vec![1, 2, 4, 8, 16, 30, 30, 30, 30, 30]);
    assert_eq!(attempts, MAX_RECONNECT_ATTEMPTS);
}

#[test]
fn shutdown_stops_without_retrying() {
    assert!(matches!(next_reconnect(true, 0), ReconnectDecision::Stop));
    assert!(matches!(next_reconnect(true, 10), ReconnectDecision::Stop));
    assert_eq!(reconnect_delay_secs(1), 1);
    assert_eq!(reconnect_delay_secs(5), 16);
    assert_eq!(reconnect_delay_secs(6), 30);
    assert_eq!(reconnect_delay_secs(4_000_000_000), 30);
}

#[test]
fn voice_status_is_recorded() {
    let mut state = ConnectionState::new();
    let reply = handle_server_message(
        &mut state,
        ServerMessage::VoiceStatus(VoiceStatusMessage {
            available: true,
            streaming: false,
            channel_type: Some("proximity".to_string()),
            connected_players: Some(3),
        }),
    );
    assert!(!reply);
    assert!(state.voice_available);
    assert!(!state.voice_streaming);
    assert_eq!(state.voice_channel_type.as_deref(), Some("proximity"));
    assert_eq!(state.voice_connected_players, Some(3));
}

#[test]
fn reconnect_status_text() {
    assert_eq!(dj_client::session::reconnect_status(8, 4), "Reconnecting in 8s (4/10)");
    assert_eq!(dj_client::session::reconnect_status(30, 10), "Reconnecting in 30s (10/10)");
}

#[test]
fn decimal_text_has_no_leading_zeros() {
    assert_eq!(dj_client::text::decimal_text(0), "0");
    assert_eq!(dj_client::text::decimal_text(7), "7");
    assert_eq!(dj_client::text::decimal_text(1000), "1000");
    assert_eq!(dj_client::text::decimal_text(u64::MAX), "18446744073709551615");
}
