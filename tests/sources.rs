use dj_client::sources::{build_source_list, resolve_source, AudioSource, CaptureError, CaptureTarget, SourceType};

#[test]
fn system_audio_and_unknown_ids_use_default_output() {
    assert!(matches!(resolve_source(Some("system_audio"), true, true), Ok(CaptureTarget::DefaultOutputLoopback)));
    assert!(matches!(resolve_source(None, true, true), Ok(CaptureTarget::DefaultOutputLoopback)));
    assert!(matches!(resolve_source(Some("speakers"), false, false), Ok(CaptureTarget::DefaultOutputLoopback)));
}

#[test]
fn named_devices_keep_their_names() {
    match resolve_source(Some("output:Speakers (Realtek)"), false, false) {
        Ok(CaptureTarget::OutputLoopback(n)) => assert_eq!(n, "Speakers (Realtek)"),
        _ => panic!("expected output loopback"),
    }
    match resolve_source(Some("input:Mic"), false, false) {
        Ok(CaptureTarget::Input(n)) => assert_eq!(n, "Mic"),
        _ => panic!("expected input"),
    }
    match resolve_source(Some("output:output:X"), false, false) {
        Ok(CaptureTarget::OutputLoopback(n)) => assert_eq!(n, "X"),
        _ => panic!("expected output loopback"),
    }
}

#[test]
fn app_sources_need_platform_support() {
    match resolve_source(Some("app:1234:Spotify"), true, true) {
        Ok(CaptureTarget::ProcessLoopback(pid)) => assert_eq!(pid, 1234),
        _ => panic!("expected process loopback"),
    }
    assert!(matches!(resolve_source(Some("app:1234:Spotify"), true, false), Ok(CaptureTarget::DefaultOutputLoopback)));
    assert!(matches!(resolve_source(Some("app:1234:Spotify"), false, false), Ok(CaptureTarget::DefaultOutputLoopback)));
    match resolve_source(Some("app:77"), true, true) {
        Ok(CaptureTarget::ProcessLoopback(pid)) => assert_eq!(pid, 77),
        _ => panic!("expected process loopback"),
    }
}

#[test]
fn app_source_without_pid_is_rejected() {
    match resolve_source(Some("app:abc:Spotify"), true, true) {
        Err(CaptureError::SourceNotFound(m)) => assert_eq!(m, "Invalid app source: app:abc:Spotify"),
        _ => panic!("expected source-not-found"),
    }
    assert!(matches!(resolve_source(Some("app::x"), true, false), Err(CaptureError::SourceNotFound(_))));
    assert!(matches!(resolve_source(Some("app:99999999999:x"), true, true), Err(CaptureError::SourceNotFound(_))));
}

#[test]
fn source_list_orders_system_apps_outputs_inputs() {
    let apps = vec![AudioSource {
        id: "app:42:Spotify".to_string(),
        name: "Spotify".to_string(),
        source_type: SourceType::Application,
    }];
    let outputs = vec!["Speakers".to_string(), "HDMI".to_string()];
    let inputs = vec!["Mic".to_string()];
    let list = build_source_list(Some("Speakers".to_string()), apps, &outputs, &inputs);
    let ids: Vec<&str> = list.iter().map(|s| s.id.as_str()).collect();
    assert_eq!(ids, ["system_audio", "app:42:Spotify", "output:HDMI", "input:Mic"]);
    assert_eq!(list[0].name, "System Audio (Speakers)");
    assert_eq!(list[2].name, "Loopback: HDMI");
    assert_eq!(list[3].name, "Input: Mic");
    assert!(list[0].source_type == SourceType::SystemAudio);
    assert!(list[2].source_type == SourceType::SystemAudio);
    assert!(list[3].source_type == SourceType::InputDevice);
}

#[test]
fn source_list_without_default_output_lists_every_device() {
    let outputs = vec!["Speakers".to_string()];
    let list = build_source_list(None, Vec::new(), &outputs, &Vec::new());
    assert_eq!(list.len(), 1);
    assert_eq!(list[0].id, "output:Speakers");
}
