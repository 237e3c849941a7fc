//! Message values of the upstream session protocol.
//!
//! These are the library's plain forms of the wire messages; turning them into
//! and out of JSON text happens at the edge of the program.

use vstd::prelude::*;

verus! {

/// Credential authentication (`dj_auth`).
pub struct DjAuthMessage {
    pub msg_type: String,
    pub dj_id: String,
    pub dj_key: String,
    pub dj_name: String,
    pub direct_mode: Option<bool>,
}

impl DjAuthMessage {
    pub fn new(dj_id: String, dj_key: String, dj_name: String) -> (r: Self)
        ensures
            r.msg_type@ == "dj_auth"@,
            r.dj_id@ == dj_id@,
            r.dj_key@ == dj_key@,
            r.dj_name@ == dj_name@,
            r.direct_mode is None,
    {
        DjAuthMessage { msg_type: "dj_auth".to_string(), dj_id, dj_key, dj_name, direct_mode: None }
    }
}

/// Connect-code authentication (`code_auth`).
pub struct CodeAuthMessage {
    pub msg_type: String,
    pub code: String,
    pub dj_name: String,
}

impl CodeAuthMessage {
    pub fn new(code: String, dj_name: String) -> (r: Self)
        ensures
            r.msg_type@ == "code_auth"@,
            r.code@ == code@,
            r.dj_name@ == dj_name@,
    {
        CodeAuthMessage { msg_type: "code_auth".to_string(), code, dj_name }
    }
}

/// Graceful disconnect notice (`going_offline`).
pub struct GoingOfflineMessage {
    pub msg_type: String,
}

impl GoingOfflineMessage {
    pub fn new() -> (r: Self)
        ensures
            r.msg_type@ == "going_offline"@,
    {
        GoingOfflineMessage { msg_type: "going_offline".to_string() }
    }
}

impl Default for GoingOfflineMessage {
    fn default() -> (r: Self)
        ensures
            r.msg_type@ == "going_offline"@,
    {
        GoingOfflineMessage::new()
    }
}

/// One voice frame (`voice_audio`).
pub struct VoiceAudioMessage {
    pub msg_type: String,
    pub data: String,
    pub seq: u64,
    pub codec: String,
}

impl VoiceAudioMessage {
    pub fn new(data: String, seq: u64, codec: String) -> (r: Self)
        ensures
            r.msg_type@ == "voice_audio"@,
            r.data@ == data@,
            r.seq == seq,
            r.codec@ == codec@,
    {
        VoiceAudioMessage { msg_type: "voice_audio".to_string(), data, seq, codec }
    }
}

/// The part of a server's pattern configuration that the session reads.
#[derive(Clone)]
pub struct PatternConfigInfo {
    pub entity_count: Option<u32>,
}

/// `auth_success`.
pub struct AuthSuccessMessage {
    pub dj_id: String,
    pub dj_name: String,
    pub is_active: bool,
    pub current_pattern: Option<String>,
    pub pattern_config: Option<PatternConfigInfo>,
    pub route_mode: Option<String>,
}

/// `auth_error`.
pub struct AuthErrorMessage {
    pub error: String,
}

/// `status_update`.
pub struct StatusUpdateMessage {
    pub is_active: bool,
}

/// `pattern_sync`.
pub struct PatternSyncMessage {
    pub pattern: String,
    pub config: Option<PatternConfigInfo>,
}

/// `config_sync`.
pub struct ConfigSyncMessage {
    pub entity_count: u32,
    pub zone: String,
}

/// `effect_triggered`.
pub struct EffectTriggeredMessage {
    pub effect: String,
}

/// `stream_route`: the routing policy chosen by the server.
pub struct StreamRouteMessage {
    pub route_mode: String,
    pub is_active: Option<bool>,
    pub minecraft_host: Option<String>,
    pub minecraft_port: Option<u16>,
    pub zone: Option<String>,
    pub entity_count: Option<u32>,
    pub pattern_config: Option<PatternConfigInfo>,
}

/// `voice_status`.
pub struct VoiceStatusMessage {
    pub available: bool,
    pub streaming: bool,
    pub channel_type: Option<String>,
    pub connected_players: Option<u32>,
}

/// An inbound server message. Timestamps are not carried: the latency that
/// a `heartbeat_ack` yields is measured where the clock is read, and handed
/// in as whole milliseconds.
pub enum ServerMessage {
    AuthSuccess(AuthSuccessMessage),
    AuthError(AuthErrorMessage),
    StatusUpdate(StatusUpdateMessage),
    ClockSyncRequest,
    HeartbeatAck { latency_ms: u32 },
    PatternSync(PatternSyncMessage),
    ConfigSync(ConfigSyncMessage),
    PresetSync,
    EffectTriggered(EffectTriggeredMessage),
    StreamRoute(StreamRouteMessage),
    VoiceStatus(VoiceStatusMessage),
}

} // verus!
