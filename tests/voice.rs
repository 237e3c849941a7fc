use base64::Engine;
use dj_client::voice::{
    consumed_source_samples, encode_pcm_frame, resample_len, resample_position, VoiceStreamer,
    MAX_QUEUED_FRAMES,
};

fn decode(s: &str) -> Vec<u8> {
    base64::engine::general_purpose::STANDARD.decode(s).unwrap()
}

#[test]
fn voice_streamer_disabled_by_default() {
    let mut streamer = VoiceStreamer::new(48000, 2);
    assert!(!streamer.is_enabled());
    assert!(streamer.drain_frames().is_empty());
}

#[test]
fn voice_streamer_ignores_samples_when_disabled() {
    let mut streamer = VoiceStreamer::new(48000, 2);
    let samples = vec![16384i16; 2400];
    streamer.push_samples(&samples);
    assert!(streamer.drain_frames().is_empty());
}

#[test]
fn voice_streamer_produces_frames_when_enabled() {
    let mut streamer = VoiceStreamer::new(48000, 1);
    streamer.set_enabled(true);

    let samples = vec![3277i16; 960];
    streamer.push_samples(&samples);

    let frames = streamer.drain_frames();
    assert_eq!(frames.len(), 1);

    let codec = &frames[0].codec;
    assert!(codec == "opus" || codec == "pcm");

    let decoded = decode(&frames[0].data);
    if codec == "pcm" {
        assert_eq!(decoded.len(), 1920);
    } else {
        assert!(decoded.len() < 1920);
    }
}

#[test]
fn voice_streamer_sequence_increments() {
    let mut streamer = VoiceStreamer::new(48000, 1);
    streamer.set_enabled(true);

    let samples = vec![3277i16; 1920];
    streamer.push_samples(&samples);

    let frames = streamer.drain_frames();
    assert_eq!(frames.len(), 2);
    assert_eq!(frames[0].seq, 0);
    assert_eq!(frames[1].seq, 1);
    assert_eq!(frames[0].codec, frames[1].codec);
}

#[test]
fn voice_streamer_drops_oldest_when_full() {
    let mut streamer = VoiceStreamer::new(48000, 1);
    streamer.set_enabled(true);

    for _ in 0..(MAX_QUEUED_FRAMES + 10) {
        let samples = vec![3277i16; 960];
        streamer.push_samples(&samples);
    }

    let frames = streamer.drain_frames();
    assert!(frames.len() <= MAX_QUEUED_FRAMES);
}

#[test]
fn set_enabled_false_clears_buffers() {
    let mut streamer = VoiceStreamer::new(48000, 1);
    streamer.set_enabled(true);

    let samples = vec![3277i16; 960];
    streamer.push_samples(&samples);

    streamer.set_enabled(false);
    assert!(streamer.drain_frames().is_empty());
}

#[test]
fn resample_passthrough_at_same_rate() {
    assert_eq!(resample_len(5, 48000, 48000), 5);
    for i in 0..5 {
        assert_eq!(resample_position(i, 48000, 48000), (i, 0));
    }
}

#[test]
fn resample_downsamples_correctly() {
    assert_eq!(resample_len(100, 96000, 48000), 50);
}

#[test]
fn resample_upsamples_correctly() {
    assert_eq!(resample_len(100, 24000, 48000), 200);
}

#[test]
fn resample_length_is_floor_of_ratio() {
    assert_eq!(resample_len(0, 44100, 48000), 0);
    assert_eq!(resample_len(441, 44100, 48000), 480);
    assert_eq!(resample_len(100, 44100, 48000), 108);
    assert_eq!(resample_len(7, 96000, 48000), 3);
}

#[test]
fn resample_positions_interpolate_between_neighbours() {
    assert_eq!(resample_position(1, 24000, 48000), (0, 24000));
    assert_eq!(resample_position(3, 24000, 48000), (1, 24000));
    assert_eq!(resample_position(5, 96000, 48000), (10, 0));
    assert_eq!(resample_position(10, 44100, 48000), (9, 9000));
}

#[test]
fn consumed_samples_round_up_and_are_capped() {
    assert_eq!(consumed_source_samples(480, 44100, 48000, 1000), 441);
    assert_eq!(consumed_source_samples(481, 44100, 48000, 1000), 442);
    assert_eq!(consumed_source_samples(50, 96000, 48000, 99), 99);
    assert_eq!(consumed_source_samples(960, 48000, 48000, 1000), 960);
    assert_eq!(consumed_source_samples(960, 48000, 48000, 10), 10);
}

#[test]
fn pcm_frame_is_little_endian_base64() {
    assert_eq!(encode_pcm_frame(&[1, -2]), "AQD+/w==");
    assert_eq!(decode(&encode_pcm_frame(&[0x1234, -1])), vec![0x34, 0x12, 0xff, 0xff]);
    assert_eq!(encode_pcm_frame(&[]), "");
}

#[test]
fn voice_frame_round_trip_of_half_scale_samples() {
    let mut streamer = VoiceStreamer::new(48000, 1);
    streamer.set_enabled(true);
    let value: i16 = 16384;
    streamer.push_samples(&vec![value; 960]);
    let frames = streamer.drain_frames();
    assert_eq!(frames.len(), 1);
    assert_eq!(frames[0].seq, 0);
    assert_eq!(frames[0].codec, "pcm");
    let bytes = decode(&frames[0].data);
    assert_eq!(bytes.len(), 1920);
    for pair in bytes.chunks(2) {
        assert_eq!(i16::from_le_bytes([pair[0], pair[1]]), value);
    }
}

#[test]
fn partial_frames_wait_for_more_samples() {
    let mut streamer = VoiceStreamer::new(48000, 1);
    streamer.set_enabled(true);
    streamer.push_samples(&vec![1i16; 500]);
    assert!(streamer.drain_frames().is_empty());
    streamer.push_samples(&vec![2i16; 500]);
    let frames = streamer.drain_frames();
    assert_eq!(frames.len(), 1);
    let bytes = decode(&frames[0].data);
    assert_eq!(i16::from_le_bytes([bytes[0], bytes[1]]), 1);
    assert_eq!(i16::from_le_bytes([bytes[1000], bytes[1001]]), 2);
    assert_eq!(streamer.current_seq(), 1);
}

#[test]
fn full_queue_keeps_the_newest_fifty_frames() {
    let mut streamer = VoiceStreamer::new(48000, 1);
    streamer.set_enabled(true);
    for k in 0..60i16 {
        streamer.push_samples(&vec![k; 960]);
    }
    let frames = streamer.drain_frames();
    assert_eq!(frames.len(), 50);
    let first = decode(&frames[0].data);
    assert_eq!(i16::from_le_bytes([first[0], first[1]]), 10);
    let last = decode(&frames[49].data);
    assert_eq!(i16::from_le_bytes([last[0], last[1]]), 59);
    assert_eq!(frames[49].seq, 49);
    assert_eq!(streamer.current_seq(), 50);
}

#[test]
fn zero_channels_count_as_mono() {
    let streamer = VoiceStreamer::new(44100, 0);
    assert_eq!(streamer.source_channels(), 1);
    assert_eq!(streamer.source_sample_rate(), 44100);
}

#[test]
fn voice_status_defaults_to_unavailable_static_channel() {
    let status = dj_client::voice::VoiceStatus::default();
    assert!(!status.available);
    assert!(!status.streaming);
    assert_eq!(status.channel_type, "static");
    assert_eq!(status.connected_players, 0);
}
