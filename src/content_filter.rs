//! Slur detection for user-facing text.
//!
//! Invisible Unicode characters that could hide a word from the detector are
//! removed first; the detection itself is the `rustrict` crate's, at the
//! threshold "offensive and severe", so that ordinary profanity passes.

use rustrict::CensorStr;
use vstd::prelude::*;

use crate::text::{chars_of, concat, string_from_chars};

verus! {

/// Whether `c` is one of the zero-width or invisible characters that are
/// removed before detection.
pub open spec fn invisible(c: char) -> bool {
    c == '\u{200b}' || c == '\u{200c}' || c == '\u{200d}' || c == '\u{200e}'
        || c == '\u{200f}' || c == '\u{2060}' || c == '\u{feff}' || c == '\u{00ad}'
        || c == '\u{034f}' || c == '\u{061c}' || c == '\u{115f}' || c == '\u{1160}'
        || c == '\u{17b4}' || c == '\u{17b5}' || c == '\u{180e}'
}

/// The text with every invisible character removed, order kept.
pub open spec fn visible_text(s: Seq<char>) -> Seq<char> {
    s.filter(|c: char| !invisible(c))
}

/// Whether rustrict rates the text as both offensive and severe.
pub uninterp spec fn severe_slur_in(s: Seq<char>) -> bool;

/// The message returned when a field is rejected: it names the field and
/// never what was detected.
pub open spec fn rejection_message(field_name: Seq<char>) -> Seq<char> {
    field_name + " contains language that is not allowed"@
}

/// Relies on rustrict's `CensorStr::is` for `&str` with the threshold
/// `Type::OFFENSIVE & Type::SEVERE`; its answer depends on the text alone.
#[verifier::external_body]
fn rustrict_is_severe_offensive(text: &str) -> (r: bool)
    ensures
        r == severe_slur_in(text@),
{
    text.is(rustrict::Type::OFFENSIVE & rustrict::Type::SEVERE)
}

/// Whether `c` is a zero-width or invisible character.
pub fn is_invisible(c: char) -> (r: bool)
    ensures
        r == invisible(c),
{
    c == '\u{200b}' || c == '\u{200c}' || c == '\u{200d}' || c == '\u{200e}'
        || c == '\u{200f}' || c == '\u{2060}' || c == '\u{feff}' || c == '\u{00ad}'
        || c == '\u{034f}' || c == '\u{061c}' || c == '\u{115f}' || c == '\u{1160}'
        || c == '\u{17b4}' || c == '\u{17b5}' || c == '\u{180e}'
}

/// The text with zero-width and invisible characters removed.
pub fn strip_invisible(text: &str) -> (r: String)
    ensures
        r@ == visible_text(text@),
{
    let chars = chars_of(text);
    let mut out: Vec<char> = Vec::new();
    let mut i: usize = 0;
    while i < chars.len()
        invariant
            chars@ == text@,
            i <= chars@.len(),
            out@ == visible_text(chars@.subrange(0, i as int)),
        decreases chars.len() - i,
    {
        let c = chars[i];
        proof {
            let pre = chars@.subrange(0, i as int);
            assert(chars@.subrange(0, i + 1) =~= pre.push(c));
            reveal(Seq::filter);
            assert(pre.push(c).drop_last() =~= pre);
        }
        if !is_invisible(c) {
            out.push(c);
        }
        i = i + 1;
    }
    assert(chars@.subrange(0, chars@.len() as int) =~= chars@);
    string_from_chars(out)
}

/// Whether the text, once stripped of invisible characters, holds a severe
/// slur.
pub fn contains_slur(text: &str) -> (r: bool)
    ensures
        r == severe_slur_in(visible_text(text@)),
{
    let cleaned = strip_invisible(text);
    rustrict_is_severe_offensive(cleaned.as_str())
}

/// Checks that `text` holds no severe slur; on failure the error names the
/// field and nothing more.
pub fn validate_no_slurs(text: &str, field_name: &str) -> (r: Result<(), String>)
    ensures
        r is Ok <==> !severe_slur_in(visible_text(text@)),
        r matches Err(m) ==> m@ == rejection_message(field_name@),
{
    if contains_slur(text) {
        let suffix = " contains language that is not allowed";
        Err(concat(field_name, suffix))
    } else {
        Ok(())
    }
}

} // verus!
