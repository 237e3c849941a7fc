use dj_client::beat::{BeatGate, BEAT_COOLDOWN_FRAMES};

#[test]
fn detect_beat_enforces_cooldown() {
    let mut gate = BeatGate::new();
    assert!(gate.step(true));
    assert_eq!(gate.cooldown(), 8);
    assert!(!gate.step(true));
    assert_eq!(gate.cooldown(), 7);
}

#[test]
fn no_beat_fires_for_seven_frames_after_a_beat() {
    let mut gate = BeatGate::new();
    assert!(gate.step(true));
    for _ in 0..7 {
        assert!(!gate.step(true));
    }
    assert!(gate.step(true));
    assert_eq!(gate.cooldown(), BEAT_COOLDOWN_FRAMES);
}

#[test]
fn gate_without_candidate_never_fires() {
    let mut gate = BeatGate::new();
    for _ in 0..20 {
        assert!(!gate.step(false));
    }
    assert_eq!(gate.cooldown(), 0);
}
