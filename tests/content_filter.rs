use dj_client::content_filter::{contains_slur, is_invisible, strip_invisible, validate_no_slurs};

#[test]
fn clean_text_passes() {
    assert!(!contains_slur("DJ BassDropper"));
    assert!(!contains_slur("The Groove Machine"));
    assert!(!contains_slur("Chill Vibes Only"));
}

#[test]
fn basic_profanity_allowed() {
    assert!(!contains_slur("damn"));
    assert!(!contains_slur("hell"));
    assert!(!contains_slur("crap"));
}

#[test]
fn empty_and_whitespace() {
    assert!(!contains_slur(""));
    assert!(!contains_slur("   "));
}

#[test]
fn scunthorpe_safe() {
    assert!(!contains_slur("Scunthorpe"));
    assert!(!contains_slur("classic"));
}

#[test]
fn validate_clean_ok() {
    assert!(validate_no_slurs("DJ Cool", "DJ name").is_ok());
}

#[test]
fn validate_vague_error() {
    let result = validate_no_slurs("test", "DJ name");
    assert!(result.is_ok());
}

#[test]
fn invisible_characters_are_recognised() {
    assert!(is_invisible('\u{200b}'));
    assert!(is_invisible('\u{feff}'));
    assert!(is_invisible('\u{180e}'));
    assert!(!is_invisible('a'));
    assert!(!is_invisible(' '));
}

#[test]
fn strip_invisible_keeps_visible_text_in_order() {
    assert_eq!(strip_invisible("D\u{200b}J\u{00ad} C\u{2060}ool"), "DJ Cool");
    assert_eq!(strip_invisible(""), "");
    assert_eq!(strip_invisible("\u{200c}\u{200d}"), "");
}
