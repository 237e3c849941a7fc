//! Built-in tuning presets for the music analyzer.
//!
//! Tuning values are held in thousandths (`350` stands for 0.35), so that
//! the table and its lookup are exact; the analyzer divides by 1000.

use vstd::prelude::*;

use crate::text::same_text;

verus! {

/// The number of built-in presets.
pub const PRESET_COUNT: usize = 6;

/// A named bundle of analyzer parameters, in thousandths.
pub struct AudioPreset {
    pub name: String,
    pub attack: u32,
    pub release: u32,
    pub beat_threshold: u32,
    pub bass_weight: u32,
    pub band_sensitivity: [u32; 5],
}

/// The names of the built-in presets, in table order.
pub open spec fn preset_names() -> Seq<Seq<char>> {
    seq!["auto"@, "edm"@, "chill"@, "rock"@, "hiphop"@, "classical"@]
}

/// Attack, release, beat threshold and bass weight of the `i`-th preset, in
/// thousandths.
pub open spec fn preset_params(i: int) -> Seq<u32> {
    if i == 0 {
        seq![350u32, 80, 1300, 700]
    } else if i == 1 {
        seq![700u32, 150, 1100, 850]
    } else if i == 2 {
        seq![250u32, 50, 1600, 500]
    } else if i == 3 {
        seq![500u32, 120, 1300, 650]
    } else if i == 4 {
        seq![600u32, 100, 1200, 800]
    } else {
        seq![200u32, 40, 1800, 400]
    }
}

/// Per-band sensitivities of the `i`-th preset, in thousandths.
pub open spec fn preset_bands(i: int) -> Seq<u32> {
    if i == 0 {
        seq![1000u32, 1000, 1000, 1000, 1000]
    } else if i == 1 {
        seq![1500u32, 800, 900, 1200, 1000]
    } else if i == 2 {
        seq![900u32, 1000, 1100, 1200, 1300]
    } else if i == 3 {
        seq![1200u32, 1000, 1000, 900, 800]
    } else if i == 4 {
        seq![1400u32, 900, 1000, 1100, 900]
    } else {
        seq![800u32, 1000, 1200, 1300, 1400]
    }
}

/// `p` is the `i`-th built-in preset.
pub open spec fn is_builtin(p: &AudioPreset, i: int) -> bool {
    &&& 0 <= i < PRESET_COUNT
    &&& p.name@ == preset_names()[i]
    &&& p.attack == preset_params(i)[0]
    &&& p.release == preset_params(i)[1]
    &&& p.beat_threshold == preset_params(i)[2]
    &&& p.bass_weight == preset_params(i)[3]
    &&& p.band_sensitivity@ == preset_bands(i)
}

/// Index of the first built-in preset named exactly `name`, or -1.
pub open spec fn preset_index(name: Seq<char>) -> int {
    if name == preset_names()[0] {
        0
    } else if name == preset_names()[1] {
        1
    } else if name == preset_names()[2] {
        2
    } else if name == preset_names()[3] {
        3
    } else if name == preset_names()[4] {
        4
    } else if name == preset_names()[5] {
        5
    } else {
        -1
    }
}

/// What `str::to_lowercase` returns for the given characters.
pub uninterp spec fn lower_of(s: Seq<char>) -> Seq<char>;

/// Relies on `str::to_lowercase`: Unicode lower-casing, which depends on the
/// characters alone.
#[verifier::external_body]
fn lowercase(s: &str) -> (r: String)
    ensures
        r@ == lower_of(s@),
{
    s.to_lowercase()
}

/// The `i`-th built-in preset.
pub fn builtin_preset(i: usize) -> (r: AudioPreset)
    requires
        i < PRESET_COUNT,
    ensures
        is_builtin(&r, i as int),
{
    let (name, attack, release, beat_threshold, bass_weight, band_sensitivity) = if i == 0 {
        ("auto", 350u32, 80u32, 1300u32, 700u32, [1000u32, 1000, 1000, 1000, 1000])
    } else if i == 1 {
        ("edm", 700, 150, 1100, 850, [1500, 800, 900, 1200, 1000])
    } else if i == 2 {
        ("chill", 250, 50, 1600, 500, [900, 1000, 1100, 1200, 1300])
    } else if i == 3 {
        ("rock", 500, 120, 1300, 650, [1200, 1000, 1000, 900, 800])
    } else if i == 4 {
        ("hiphop", 600, 100, 1200, 800, [1400, 900, 1000, 1100, 900])
    } else {
        ("classical", 200, 40, 1800, 400, [800, 1000, 1200, 1300, 1400])
    };
    let r = AudioPreset {
        name: name.to_string(),
        attack,
        release,
        beat_threshold,
        bass_weight,
        band_sensitivity,
    };
    assert(r.band_sensitivity@ =~= preset_bands(i as int));
    r
}

/// All built-in presets, in table order.
pub fn get_presets() -> (r: Vec<AudioPreset>)
    ensures
        r@.len() == PRESET_COUNT,
        forall|i: int| 0 <= i < PRESET_COUNT ==> is_builtin(#[trigger] &r@[i], i),
{
    let mut out: Vec<AudioPreset> = Vec::new();
    let mut i: usize = 0;
    while i < PRESET_COUNT
        invariant
            i <= PRESET_COUNT,
            out@.len() == i,
            forall|j: int| 0 <= j < i ==> is_builtin(#[trigger] &out@[j], j),
        decreases PRESET_COUNT - i,
    {
        out.push(builtin_preset(i));
        i = i + 1;
    }
    out
}

/// The built-in preset whose name is exactly `lower`, if any.
pub fn find_preset(lower: &str) -> (r: Option<AudioPreset>)
    ensures
        preset_index(lower@) == -1 ==> r is None,
        preset_index(lower@) != -1 ==> (r matches Some(p) && is_builtin(&p, preset_index(lower@))),
{
    let mut i: usize = 0;
    while i < PRESET_COUNT
        invariant
            i <= PRESET_COUNT,
            forall|j: int| 0 <= j < i ==> preset_names()[j] != lower@,
        decreases PRESET_COUNT - i,
    {
        let p = builtin_preset(i);
        if same_text(p.name.as_str(), lower) {
            return Some(p);
        }
        i = i + 1;
    }
    None
}

/// The built-in preset with the given name, compared case-insensitively.
pub fn get_preset(name: &str) -> (r: Option<AudioPreset>)
    ensures
        preset_index(lower_of(name@)) == -1 ==> r is None,
        preset_index(lower_of(name@)) != -1 ==> (r matches Some(p) && is_builtin(
            &p,
            preset_index(lower_of(name@)),
        )),
{
    let lower = lowercase(name);
    find_preset(lower.as_str())
}

/// Law of preset lookup: two names that lower-case to the same text find the
/// same preset, and a name that lower-cases to none of the built-in names
/// finds nothing.
pub proof fn lemma_lookup_ignores_case(a: Seq<char>, b: Seq<char>)
    requires
        lower_of(a) == lower_of(b),
    ensures
        preset_index(lower_of(a)) == preset_index(lower_of(b)),
        (forall|i: int| 0 <= i < PRESET_COUNT ==> preset_names()[i] != lower_of(a))
            ==> preset_index(lower_of(a)) == -1,
{
}

} // verus!
