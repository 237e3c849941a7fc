use dj_client::bridge::{frames_for_tick, DirectLink, RoutePlan};
use dj_client::session::DirectMcRoute;
use dj_client::voice::VoiceFrame;

fn route(zone: &str, count: u32) -> DirectMcRoute {
    DirectMcRoute { host: "127.0.0.1".to_string(), port: 8765, zone: zone.to_string(), entity_count: count }
}

#[test]
fn direct_route_connects_once_and_keeps() {
    let mut link = DirectLink::new();
    let wanted = Some(route("main", 16));
    assert!(matches!(link.plan(&wanted, 0), RoutePlan::Connect));
    link.connected_to(wanted.as_ref().unwrap());
    assert!(link.is_connected());
    assert!(matches!(link.plan(&wanted, 16), RoutePlan::Keep));
    assert!(matches!(link.plan(&Some(route("main", 32)), 16), RoutePlan::Keep));
    assert!(matches!(link.plan(&Some(route("stage", 16)), 16), RoutePlan::Connect));
    assert!(matches!(link.plan(&None, 16), RoutePlan::Close));
    link.close();
    assert!(!link.is_connected());
}

#[test]
fn failed_connect_waits_two_seconds() {
    let mut link = DirectLink::new();
    let wanted = Some(route("main", 16));
    link.connect_failed(1000);
    assert!(matches!(link.plan(&wanted, 2999), RoutePlan::Keep));
    assert!(matches!(link.plan(&wanted, 3000), RoutePlan::Connect));
}

#[test]
fn init_pool_is_sent_per_route_and_count() {
    let mut link = DirectLink::new();
    let r = route("main", 16);
    link.connected_to(&r);
    assert!(link.needs_init_pool(&r));
    link.init_pool_sent(&r);
    assert!(!link.needs_init_pool(&r));
    assert!(link.needs_init_pool(&route("main", 24)));
    link.send_failed(500);
    assert!(!link.is_connected());
    link.connected_to(&r);
    assert!(link.needs_init_pool(&r));
}

#[test]
fn batches_are_paced_at_forty_five_ms() {
    let mut link = DirectLink::new();
    assert!(!link.batch_due(0));
    link.connected_to(&route("main", 16));
    assert!(link.batch_due(0));
    link.batch_sent(100);
    assert!(!link.batch_due(144));
    assert!(link.batch_due(145));
}

#[test]
fn at_most_three_voice_frames_per_tick() {
    let frames: Vec<VoiceFrame> = (0..5u64)
        .map(|k| VoiceFrame { data: format!("f{k}"), seq: k, codec: "pcm".to_string() })
        .collect();
    let sent = frames_for_tick(frames);
    let seqs: Vec<u64> = sent.iter().map(|f| f.seq).collect();
    assert_eq!(seqs, vec![0, 1, 2]);
    let two: Vec<VoiceFrame> = (0..2u64)
        .map(|k| VoiceFrame { data: String::new(), seq: k, codec: "pcm".to_string() })
        .collect();
    assert_eq!(frames_for_tick(two).len(), 2);
}
