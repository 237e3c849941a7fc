//! Realtime audio-analysis and streaming core of a DJ client.
//!
//! The library holds the parts of the client that can be stated exactly and
//! proved: the capture ring buffer, source selection, preset tuning, band
//! bins and beat cooldown of the analyzer, voice framing and queueing, host
//! classification, the session's handshake and message handling, the
//! bridge's direct-route and reconnection decisions, the pattern-script
//! store, and the content filter's text handling.

pub mod beat;
pub mod bridge;
pub mod content_filter;
pub mod messages;
pub mod net;
pub mod patterns;
pub mod presets;
pub mod ring_buffer;
pub mod session;
pub mod sources;
pub mod spectrum;
pub mod text;
pub mod voice;
