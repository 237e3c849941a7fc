use dj_client::patterns::PatternScripts;

#[test]
fn unknown_pattern_is_not_loaded() {
    let scripts = PatternScripts::new();
    match scripts.switch_to("spiral") {
        Err(e) => assert_eq!(e, "Pattern 'spiral' not loaded"),
        Ok(_) => panic!("nothing was loaded"),
    }
    assert!(scripts.current_pattern().is_none());
}

#[test]
fn switch_runs_lib_then_pattern() {
    let mut scripts = PatternScripts::new();
    scripts.load_script("lib", "function clamp(x) return x end");
    scripts.load_script("spiral", "function calculate() return {} end");
    let sw = scripts.switch_to("spiral").unwrap();
    assert_eq!(sw.lib_source.as_deref(), Some("function clamp(x) return x end"));
    assert_eq!(sw.source, "function calculate() return {} end");
    assert!(scripts.pattern_source("lib").is_none());
    scripts.mark_current("spiral");
    assert_eq!(scripts.current_pattern().as_deref(), Some("spiral"));
}

#[test]
fn reloading_a_pattern_replaces_its_script() {
    let mut scripts = PatternScripts::new();
    scripts.load_pattern("wave", "wave script");
    scripts.load_pattern("pulse", "pulse script");
    scripts.load_pattern("wave", "wave script, revised");
    assert_eq!(scripts.pattern_source("wave").as_deref(), Some("wave script, revised"));
    assert_eq!(scripts.pattern_source("pulse").as_deref(), Some("pulse script"));
    let sw = scripts.switch_to("wave").unwrap();
    assert!(sw.lib_source.is_none());
    assert_eq!(sw.source, "wave script, revised");
}
