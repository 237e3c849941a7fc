//! Session state and the decisions of the upstream session: which
//! authentication message to send, how each handshake and server message
//! changes the connection state, when a direct renderer route is in force,
//! and how long to wait before reconnecting.

use vstd::prelude::*;

use crate::messages::{
    AuthSuccessMessage, CodeAuthMessage, DjAuthMessage, ServerMessage, StreamRouteMessage,
};
use crate::text::{concat, decimal, decimal_text, same_text};

verus! {

/// The view of an optional string.
pub open spec fn opt_view(o: Option<String>) -> Option<Seq<char>> {
    match o {
        Some(s) => Some(s@),
        None => None,
    }
}

/// Errors of the session client.
pub enum ClientError {
    ConnectionFailed(String),
    AuthenticationFailed(String),
    WebSocketError(String),
    SendError(String),
    AlreadyConnected,
    NotConnected,
}

/// Connection settings of the session client.
pub struct DjClientConfig {
    pub server_host: String,
    pub server_port: u16,
    pub dj_name: String,
    pub connect_code: Option<String>,
    pub dj_id: Option<String>,
    pub dj_key: Option<String>,
    pub max_reconnect_attempts: u32,
    /// Initial reconnection delay, in milliseconds.
    pub reconnect_delay_ms: u64,
    /// Heartbeat interval, in milliseconds.
    pub heartbeat_interval_ms: u64,
}

impl Default for DjClientConfig {
    fn default() -> (r: Self)
        ensures
            r.server_host@ == "localhost"@,
            r.server_port == 9000,
            r.dj_name@ == "DJ"@,
            r.connect_code is None,
            r.dj_id is None,
            r.dj_key is None,
            r.max_reconnect_attempts == 10,
            r.reconnect_delay_ms == 2000,
            r.heartbeat_interval_ms == 2000,
    {
        DjClientConfig {
            server_host: "localhost".to_string(),
            server_port: 9000,
            dj_name: "DJ".to_string(),
            connect_code: None,
            dj_id: None,
            dj_key: None,
            max_reconnect_attempts: 10,
            reconnect_delay_ms: 2000,
            heartbeat_interval_ms: 2000,
        }
    }
}

/// What the session knows of its connection and of the server's routing
/// policy.
#[derive(Clone)]
pub struct ConnectionState {
    pub connected: bool,
    pub authenticated: bool,
    pub is_active: bool,
    pub dj_id: Option<String>,
    pub latency_ms: u32,
    pub reconnect_attempts: u32,
    /// `relay` or `dual`.
    pub route_mode: String,
    pub mc_host: Option<String>,
    pub mc_port: Option<u16>,
    pub mc_zone: Option<String>,
    pub mc_entity_count: Option<u32>,
    pub voice_available: bool,
    pub voice_streaming: bool,
    pub voice_channel_type: Option<String>,
    pub voice_connected_players: Option<u32>,
}

/// The mathematical value of a [`ConnectionState`].
pub struct ConnectionStateView {
    pub connected: bool,
    pub authenticated: bool,
    pub is_active: bool,
    pub dj_id: Option<Seq<char>>,
    pub latency_ms: u32,
    pub reconnect_attempts: u32,
    pub route_mode: Seq<char>,
    pub mc_host: Option<Seq<char>>,
    pub mc_port: Option<u16>,
    pub mc_zone: Option<Seq<char>>,
    pub mc_entity_count: Option<u32>,
    pub voice_available: bool,
    pub voice_streaming: bool,
    pub voice_channel_type: Option<Seq<char>>,
    pub voice_connected_players: Option<u32>,
}

impl View for ConnectionState {
    type V = ConnectionStateView;

    open spec fn view(&self) -> ConnectionStateView {
        ConnectionStateView {
            connected: self.connected,
            authenticated: self.authenticated,
            is_active: self.is_active,
            dj_id: opt_view(self.dj_id),
            latency_ms: self.latency_ms,
            reconnect_attempts: self.reconnect_attempts,
            route_mode: self.route_mode@,
            mc_host: opt_view(self.mc_host),
            mc_port: self.mc_port,
            mc_zone: opt_view(self.mc_zone),
            mc_entity_count: self.mc_entity_count,
            voice_available: self.voice_available,
            voice_streaming: self.voice_streaming,
            voice_channel_type: opt_view(self.voice_channel_type),
            voice_connected_players: self.voice_connected_players,
        }
    }
}

impl ConnectionState {
    /// A disconnected, unauthenticated state with no route.
    pub fn new() -> (r: Self)
        ensures
            !r.connected,
            !r.authenticated,
            !r.is_active,
            r.dj_id is None,
            r.latency_ms == 0,
            r.reconnect_attempts == 0,
            r.route_mode@ == Seq::<char>::empty(),
            r.mc_host is None,
            r.mc_port is None,
            r.mc_zone is None,
            r.mc_entity_count is None,
            !r.voice_available,
            !r.voice_streaming,
            r.voice_channel_type is None,
            r.voice_connected_players is None,
    {
        ConnectionState {
            connected: false,
            authenticated: false,
            is_active: false,
            dj_id: None,
            latency_ms: 0,
            reconnect_attempts: 0,
            route_mode: String::new(),
            mc_host: None,
            mc_port: None,
            mc_zone: None,
            mc_entity_count: None,
            voice_available: false,
            voice_streaming: false,
            voice_channel_type: None,
            voice_connected_players: None,
        }
    }
}

impl Default for ConnectionState {
    fn default() -> (r: Self)
        ensures
            !r.connected,
            !r.authenticated,
            !r.is_active,
            r.dj_id is None,
            r.latency_ms == 0,
            r.route_mode@ == Seq::<char>::empty(),
            r.mc_host is None,
            r.mc_port is None,
            r.mc_zone is None,
            r.mc_entity_count is None,
            !r.voice_available,
            !r.voice_streaming,
    {
        ConnectionState::new()
    }
}

/// The state after an `auth_success`.
pub open spec fn after_auth_success(s: ConnectionStateView, a: AuthSuccessMessage) -> ConnectionStateView {
    ConnectionStateView {
        authenticated: true,
        is_active: a.is_active,
        dj_id: Some(a.dj_id@),
        route_mode: match a.route_mode {
            Some(m) => m@,
            None => s.route_mode,
        },
        mc_entity_count: match a.pattern_config {
            Some(c) => c.entity_count,
            None => s.mc_entity_count,
        },
        ..s
    }
}

/// The state after a `stream_route`: the route fields are replaced; the
/// entity count falls back to the one of the pattern configuration.
pub open spec fn after_stream_route(s: ConnectionStateView, m: StreamRouteMessage) -> ConnectionStateView {
    ConnectionStateView {
        route_mode: m.route_mode@,
        is_active: match m.is_active {
            Some(a) => a,
            None => s.is_active,
        },
        mc_host: opt_view(m.minecraft_host),
        mc_port: m.minecraft_port,
        mc_zone: opt_view(m.zone),
        mc_entity_count: match m.entity_count {
            Some(n) => Some(n),
            None => match m.pattern_config {
                Some(c) => c.entity_count,
                None => None,
            },
        },
        ..s
    }
}

/// The state after a server message is handled.
pub open spec fn after_message(s: ConnectionStateView, msg: ServerMessage) -> ConnectionStateView {
    match msg {
        ServerMessage::AuthSuccess(a) => after_auth_success(s, a),
        ServerMessage::AuthError(_) => ConnectionStateView { authenticated: false, ..s },
        ServerMessage::StatusUpdate(u) => ConnectionStateView { is_active: u.is_active, ..s },
        ServerMessage::HeartbeatAck { latency_ms } => ConnectionStateView { latency_ms, ..s },
        ServerMessage::StreamRoute(m) => after_stream_route(s, m),
        ServerMessage::VoiceStatus(v) => ConnectionStateView {
            voice_available: v.available,
            voice_streaming: v.streaming,
            voice_channel_type: opt_view(v.channel_type),
            voice_connected_players: v.connected_players,
            ..s
        },
        _ => s,
    }
}

fn apply_auth_success(state: &mut ConnectionState, auth: AuthSuccessMessage)
    ensures
        final(state)@ == after_auth_success(old(state)@, auth),
{
    let ghost a = auth;
    state.authenticated = true;
    state.is_active = auth.is_active;
    state.dj_id = Some(auth.dj_id);
    if let Some(route_mode) = auth.route_mode {
        state.route_mode = route_mode;
    }
    if let Some(cfg) = auth.pattern_config {
        state.mc_entity_count = cfg.entity_count;
    }
    assert(state@ == after_auth_success(old(state)@, a));
}

/// Applies one server message to the session state. Returns `true` when the
/// message asks for a `clock_sync_response`.
pub fn handle_server_message(state: &mut ConnectionState, msg: ServerMessage) -> (r: bool)
    ensures
        final(state)@ == after_message(old(state)@, msg),
        r == (msg is ClockSyncRequest),
{
    match msg {
        ServerMessage::AuthSuccess(auth) => {
            apply_auth_success(state, auth);
            false
        },
        ServerMessage::AuthError(_) => {
            state.authenticated = false;
            false
        },
        ServerMessage::StatusUpdate(update) => {
            state.is_active = update.is_active;
            false
        },
        ServerMessage::ClockSyncRequest => true,
        ServerMessage::HeartbeatAck { latency_ms } => {
            state.latency_ms = latency_ms;
            false
        },
        ServerMessage::StreamRoute(route) => {
            state.route_mode = route.route_mode;
            if let Some(active) = route.is_active {
                state.is_active = active;
            }
            state.mc_host = route.minecraft_host;
            state.mc_port = route.minecraft_port;
            state.mc_zone = route.zone;
            state.mc_entity_count = match route.entity_count {
                Some(n) => Some(n),
                None => match route.pattern_config {
                    Some(cfg) => cfg.entity_count,
                    None => None,
                },
            };
            assert(state@ == after_stream_route(old(state)@, route));
            false
        },
        ServerMessage::VoiceStatus(vs) => {
            state.voice_available = vs.available;
            state.voice_streaming = vs.streaming;
            state.voice_channel_type = vs.channel_type;
            state.voice_connected_players = vs.connected_players;
            false
        },
        _ => false,
    }
}

/// The authentication message to open a session with.
pub enum AuthMessage {
    Code(CodeAuthMessage),
    Credentials(DjAuthMessage),
}

/// The text of the error when no credentials are configured.
pub open spec fn no_credentials_text() -> Seq<char> {
    "No credentials provided. Set a connect code or DJ ID/key in settings."@
}

/// Chooses the authentication message: a connect code wins; otherwise both
/// DJ id and key are needed.
pub fn auth_message(config: &DjClientConfig) -> (r: Result<AuthMessage, ClientError>)
    ensures
        config.connect_code matches Some(code) ==> (r matches Ok(AuthMessage::Code(m))
            && m.code@ == code@ && m.dj_name@ == config.dj_name@ && m.msg_type@ == "code_auth"@),
        (config.connect_code is None && config.dj_id is Some && config.dj_key is Some) ==> (
        r matches Ok(AuthMessage::Credentials(m)) && Some(m.dj_id@) == opt_view(config.dj_id)
            && Some(m.dj_key@) == opt_view(config.dj_key) && m.dj_name@ == config.dj_name@
            && m.msg_type@ == "dj_auth"@ && m.direct_mode is None),
        (config.connect_code is None && (config.dj_id is None || config.dj_key is None)) ==> (
        r matches Err(ClientError::AuthenticationFailed(e)) && e@ == no_credentials_text()),
{
    match &config.connect_code {
        Some(code) => Ok(AuthMessage::Code(CodeAuthMessage::new(code.clone(), config.dj_name.clone()))),
        None => match (&config.dj_id, &config.dj_key) {
            (Some(id), Some(key)) => Ok(
                AuthMessage::Credentials(
                    DjAuthMessage::new(id.clone(), key.clone(), config.dj_name.clone()),
                ),
            ),
            _ => Err(
                ClientError::AuthenticationFailed(
                    "No credentials provided. Set a connect code or DJ ID/key in settings.".to_string(),
                ),
            ),
        },
    }
}

/// What the handshake reads from the server before the session starts.
pub enum HandshakeEvent {
    /// An `auth_success` that parsed.
    AuthSuccess(AuthSuccessMessage),
    /// An `auth_error` that parsed, with its error text.
    AuthError(String),
    ClockSyncRequest,
    /// A `status_update`, with its `is_active` flag when it has one.
    StatusUpdate(Option<bool>),
    /// Any other message, or a frame that is not text.
    Ignored,
    /// The connection closed or failed.
    Closed,
    /// The handshake deadline passed.
    TimedOut,
}

/// What the handshake does next.
pub enum HandshakeStep {
    /// Wait for the next message.
    Continue,
    /// Send a `clock_sync_response`; the handshake is then complete.
    ReplyClockSyncAndFinish,
    /// Start the session without clock sync.
    FinishWithoutSync,
    /// Abort the connection attempt.
    Fail(ClientError),
}

/// The text of the error when the connection closes during the handshake.
pub open spec fn closed_during_handshake_text() -> Seq<char> {
    "Connection closed during handshake"@
}

/// One step of the authentication and clock-sync handshake.
pub fn handshake_step(state: &mut ConnectionState, event: HandshakeEvent) -> (r: HandshakeStep)
    ensures
        event matches HandshakeEvent::AuthSuccess(a) ==> final(state)@ == after_auth_success(old(state)@, a)
            && r is Continue,
        event matches HandshakeEvent::AuthError(e) ==> final(state)@ == old(state)@
            && (r matches HandshakeStep::Fail(ClientError::AuthenticationFailed(t)) && t@ == e@),
        event is ClockSyncRequest ==> final(state)@ == old(state)@ && r is ReplyClockSyncAndFinish,
        event matches HandshakeEvent::StatusUpdate(a) ==> final(state)@ == (match a {
            Some(x) => ConnectionStateView { is_active: x, ..old(state)@ },
            None => old(state)@,
        }) && r is Continue,
        event is Ignored ==> final(state)@ == old(state)@ && r is Continue,
        event is Closed ==> final(state)@ == old(state)@ && (r matches HandshakeStep::Fail(
            ClientError::ConnectionFailed(t),
        ) && t@ == closed_during_handshake_text()),
        event is TimedOut ==> final(state)@ == old(state)@ && r is FinishWithoutSync,
{
    match event {
        HandshakeEvent::AuthSuccess(auth) => {
            apply_auth_success(state, auth);
            HandshakeStep::Continue
        },
        HandshakeEvent::AuthError(e) => HandshakeStep::Fail(ClientError::AuthenticationFailed(e)),
        HandshakeEvent::ClockSyncRequest => HandshakeStep::ReplyClockSyncAndFinish,
        HandshakeEvent::StatusUpdate(active) => {
            if let Some(a) = active {
                state.is_active = a;
            }
            HandshakeStep::Continue
        },
        HandshakeEvent::Ignored => HandshakeStep::Continue,
        HandshakeEvent::Closed => HandshakeStep::Fail(
            ClientError::ConnectionFailed("Connection closed during handshake".to_string()),
        ),
        HandshakeEvent::TimedOut => HandshakeStep::FinishWithoutSync,
    }
}

/// Where a direct renderer connection goes.
#[derive(Clone)]
pub struct DirectMcRoute {
    pub host: String,
    pub port: u16,
    pub zone: String,
    pub entity_count: u32,
}

/// The direct route in force: only in `dual` mode, while active, with a
/// host and a port; the zone defaults to `main` and the entity count to 16,
/// and is at least 1.
pub fn resolve_direct_mc_route(conn_state: &ConnectionState) -> (r: Option<DirectMcRoute>)
    ensures
        (conn_state.route_mode@ != "dual"@ || !conn_state.is_active || conn_state.mc_host is None
            || conn_state.mc_port is None) ==> r is None,
        (conn_state.route_mode@ == "dual"@ && conn_state.is_active && conn_state.mc_host is Some
            && conn_state.mc_port is Some) ==> (r matches Some(route) && Some(route.host@) == opt_view(
            conn_state.mc_host,
        ) && Some(route.port) == conn_state.mc_port && route.zone@ == (match conn_state.mc_zone {
            Some(z) => z@,
            None => "main"@,
        }) && route.entity_count == (match conn_state.mc_entity_count {
            Some(n) => if n == 0 { 1 } else { n },
            None => 16,
        })),
{
    if !same_text(conn_state.route_mode.as_str(), "dual") || !conn_state.is_active {
        return None;
    }
    let host = match &conn_state.mc_host {
        Some(h) => h.clone(),
        None => return None,
    };
    let port = match conn_state.mc_port {
        Some(p) => p,
        None => return None,
    };
    let zone = match &conn_state.mc_zone {
        Some(z) => z.clone(),
        None => "main".to_string(),
    };
    let entity_count = match conn_state.mc_entity_count {
        Some(n) => if n == 0 { 1 } else { n },
        None => 16,
    };
    Some(DirectMcRoute { host, port, zone, entity_count })
}

/// Reconnection attempts before the session gives up.
pub const MAX_RECONNECT_ATTEMPTS: u32 = 10;

/// Longest wait between reconnection attempts, in seconds.
pub const MAX_RECONNECT_DELAY_SECS: u64 = 30;

pub open spec fn pow2(n: nat) -> nat
    decreases n,
{
    if n == 0 {
        1
    } else {
        2 * pow2((n - 1) as nat)
    }
}

/// The wait before reconnection attempt `attempt` (counted from 1):
/// `min(2^(attempt-1), 30)` seconds.
pub open spec fn backoff_secs(attempt: nat) -> nat {
    if pow2((attempt - 1) as nat) < MAX_RECONNECT_DELAY_SECS {
        pow2((attempt - 1) as nat)
    } else {
        MAX_RECONNECT_DELAY_SECS as nat
    }
}

proof fn lemma_pow2_grows(n: nat)
    requires
        n >= 5,
    ensures
        pow2(n) >= 32,
    decreases n,
{
    if n > 5 {
        lemma_pow2_grows((n - 1) as nat);
    } else {
        reveal_with_fuel(pow2, 6);
    }
}

/// Seconds to wait before reconnection attempt `attempt` (counted from 1).
pub fn reconnect_delay_secs(attempt: u32) -> (r: u64)
    requires
        attempt >= 1,
    ensures
        r == backoff_secs(attempt as nat),
{
    let shift = attempt - 1;
    if shift >= 5 {
        proof {
            lemma_pow2_grows(shift as nat);
        }
        MAX_RECONNECT_DELAY_SECS
    } else {
        let mut p: u64 = 1;
        let mut i: u32 = 0;
        while i < shift
            invariant
                shift < 5,
                i <= shift,
                p == pow2(i as nat),
                p <= 16,
            decreases shift - i,
        {
            proof {
                reveal_with_fuel(pow2, 6);
                if i == 0 { assert(pow2(1) == 2); }
            }
            assert(pow2((i + 1) as nat) == 2 * pow2(i as nat));
            p = p * 2;
            i = i + 1;
            proof {
                reveal_with_fuel(pow2, 6);
            }
        }
        proof {
            reveal_with_fuel(pow2, 6);
        }
        if p < MAX_RECONNECT_DELAY_SECS { p } else { MAX_RECONNECT_DELAY_SECS }
    }
}

/// What the bridge does once a session has ended.
pub enum ReconnectDecision {
    /// The user asked to disconnect: stop without retrying.
    Stop,
    /// Too many attempts: stop and report that the connection is lost.
    GiveUp,
    /// Wait `delay_secs`, then make reconnection attempt `attempt`.
    Retry { attempt: u32, delay_secs: u64 },
}

/// The decision after a session ends, given whether shutdown was requested
/// and how many reconnection attempts were made before.
pub fn next_reconnect(shutdown_requested: bool, attempts_made: u32) -> (r: ReconnectDecision)
    ensures
        shutdown_requested ==> r is Stop,
        !shutdown_requested && attempts_made >= MAX_RECONNECT_ATTEMPTS ==> r is GiveUp,
        !shutdown_requested && attempts_made < MAX_RECONNECT_ATTEMPTS ==> (r matches ReconnectDecision::Retry {
            attempt,
            delay_secs,
        } && attempt == attempts_made + 1 && delay_secs == backoff_secs(attempt as nat)),
{
    if shutdown_requested {
        return ReconnectDecision::Stop;
    }
    if attempts_made >= MAX_RECONNECT_ATTEMPTS {
        return ReconnectDecision::GiveUp;
    }
    let attempt = attempts_made + 1;
    ReconnectDecision::Retry { attempt, delay_secs: reconnect_delay_secs(attempt) }
}

/// The status shown while waiting to reconnect, e.g.
/// `Reconnecting in 8s (4/10)`.
pub fn reconnect_status(delay_secs: u64, attempt: u32) -> (r: String)
    ensures
        r@ == "Reconnecting in "@ + decimal(delay_secs as nat) + "s ("@ + decimal(attempt as nat) + "/"@
            + decimal(MAX_RECONNECT_ATTEMPTS as nat) + ")"@,
{
    let a = concat("Reconnecting in ", decimal_text(delay_secs).as_str());
    let b = concat(a.as_str(), "s (");
    let c = concat(b.as_str(), decimal_text(attempt as u64).as_str());
    let d = concat(c.as_str(), "/");
    let e = concat(d.as_str(), decimal_text(MAX_RECONNECT_ATTEMPTS as u64).as_str());
    concat(e.as_str(), ")")
}

/// Law of the reconnection backoff: starting from no attempts, the waits
/// are 1, 2, 4, 8, 16, 30, 30, 30, 30, 30 seconds, and once ten attempts
/// have been made the bridge gives up.
pub proof fn lemma_backoff_sequence()
    ensures
        backoff_secs(1) == 1,
        backoff_secs(2) == 2,
        backoff_secs(3) == 4,
        backoff_secs(4) == 8,
        backoff_secs(5) == 16,
        forall|a: nat| 6 <= a <= MAX_RECONNECT_ATTEMPTS ==> #[trigger] backoff_secs(a) == 30,
{
    reveal_with_fuel(pow2, 6);
    assert forall|a: nat| 6 <= a <= MAX_RECONNECT_ATTEMPTS implies #[trigger] backoff_secs(a) == 30 by {
        lemma_pow2_grows((a - 1) as nat);
    }
}

} // verus!
