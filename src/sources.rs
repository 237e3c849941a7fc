//! Audio sources: the list offered to the user, and the rules that turn a
//! requested source identifier into a capture target.
//!
//! Identifiers are `system_audio`, `output:<device>`, `input:<device>` and
//! `app:<pid>:<hint>`.

use vstd::prelude::*;

use crate::net::{dec_value, is_digit};
use crate::text::{chars_of, concat, same_text, string_from_chars};

verus! {

/// Kind of an audio source.
#[derive(PartialEq, Eq, Structural, Clone, Copy)]
pub enum SourceType {
    SystemAudio,
    Application,
    InputDevice,
}

/// One entry of the source list.
pub struct AudioSource {
    pub id: String,
    pub name: String,
    pub source_type: SourceType,
}

/// Errors of source enumeration.
pub enum SourceError {
    NoHost,
    EnumerationError(String),
    DeviceNotFound(String),
}

/// Errors of audio capture.
pub enum CaptureError {
    NoHost,
    NoOutputDevice,
    ConfigError(String),
    StreamError(String),
    PlayError(String),
    SourceNotFound(String),
    ThreadError(String),
}

/// `s` begins with `p`.
pub open spec fn has_prefix(s: Seq<char>, p: Seq<char>) -> bool {
    s.len() >= p.len() && s.subrange(0, p.len() as int) == p
}

/// `s` with every leading repetition of the (non-empty) prefix `p` removed.
pub open spec fn strip_all(s: Seq<char>, p: Seq<char>) -> Seq<char>
    decreases s.len(),
{
    if p.len() > 0 && has_prefix(s, p) {
        strip_all(s.subrange(p.len() as int, s.len() as int), p)
    } else {
        s
    }
}

/// The characters of `s` before its first colon (all of `s` if it has none).
pub open spec fn before_colon(s: Seq<char>) -> Seq<char>
    decreases s.len(),
{
    if s.len() == 0 || s[0] == ':' {
        Seq::empty()
    } else {
        seq![s[0]] + before_colon(s.drop_first())
    }
}

/// The digits of a decimal `u32` text: an optional `+` sign is dropped.
pub open spec fn unsigned_digits(t: Seq<char>) -> Seq<char> {
    if t.len() > 0 && t[0] == '+' {
        t.drop_first()
    } else {
        t
    }
}

/// `t` is a decimal `u32`: an optional `+`, at least one digit, and a value
/// that fits.
pub open spec fn u32_text(t: Seq<char>) -> bool {
    let d = unsigned_digits(t);
    &&& d.len() > 0
    &&& forall|i: int| 0 <= i < d.len() ==> is_digit(#[trigger] d[i])
    &&& dec_value(d) <= u32::MAX
}

/// Where audio is captured from.
pub enum CaptureTarget {
    /// The default output device, in loopback mode.
    DefaultOutputLoopback,
    /// The named output device, in loopback mode.
    OutputLoopback(String),
    /// The named input device.
    Input(String),
    /// The output of one process.
    ProcessLoopback(u32),
}

/// The text of the error for an `app:` identifier without a process id.
pub open spec fn invalid_app_source_text(id: Seq<char>) -> Seq<char> {
    "Invalid app source: "@ + id
}

/// The capture target that `source_id` asks for. `per_process_platform`
/// says whether this platform has per-process loopback at all (only there
/// is the process id of an `app:` identifier read), `per_process_available`
/// whether this system supports it; without support an `app:` source falls
/// back to the default output.
pub open spec fn target_of(id: Seq<char>, per_process_platform: bool, per_process_available: bool) -> int {
    if id == "system_audio"@ {
        0
    } else if has_prefix(id, "output:"@) {
        1
    } else if has_prefix(id, "input:"@) {
        2
    } else if has_prefix(id, "app:"@) && per_process_platform {
        if !u32_text(before_colon(id.subrange(4, id.len() as int))) {
            4
        } else if per_process_available {
            3
        } else {
            0
        }
    } else {
        0
    }
}

/// Whether `s` begins with `p`.
fn starts_with(s: &Vec<char>, p: &Vec<char>) -> (r: bool)
    ensures
        r == has_prefix(s@, p@),
{
    if s.len() < p.len() {
        return false;
    }
    let mut i: usize = 0;
    while i < p.len()
        invariant
            p@.len() <= s@.len(),
            i <= p@.len(),
            s@.subrange(0, i as int) == p@.subrange(0, i as int),
        decreases p.len() - i,
    {
        if s[i] != p[i] {
            assert(s@.subrange(0, p@.len() as int)[i as int] != p@[i as int]);
            return false;
        }
        assert(s@.subrange(0, i + 1) =~= s@.subrange(0, i as int).push(s@[i as int]));
        assert(p@.subrange(0, i + 1) =~= p@.subrange(0, i as int).push(p@[i as int]));
        i = i + 1;
    }
    assert(p@.subrange(0, p@.len() as int) =~= p@);
    true
}

/// The characters of `s` from `start` on.
fn tail_from(s: &Vec<char>, start: usize) -> (r: Vec<char>)
    requires
        start <= s@.len(),
    ensures
        r@ == s@.subrange(start as int, s@.len() as int),
{
    let mut out: Vec<char> = Vec::new();
    let mut i: usize = start;
    while i < s.len()
        invariant
            start <= i <= s@.len(),
            out@ == s@.subrange(start as int, i as int),
        decreases s.len() - i,
    {
        out.push(s[i]);
        i = i + 1;
        assert(out@ =~= s@.subrange(start as int, i as int));
    }
    out
}

/// `s` with every leading repetition of `p` removed.
fn trim_start_matches(s: &Vec<char>, p: &Vec<char>) -> (r: Vec<char>)
    requires
        p@.len() > 0,
    ensures
        r@ == strip_all(s@, p@),
    decreases s@.len(),
{
    if starts_with(s, p) {
        let rest = tail_from(s, p.len());
        trim_start_matches(&rest, p)
    } else {
        tail_from(s, 0)
    }
}

/// The characters of `s` from `start` up to the next colon.
fn field_before_colon(s: &Vec<char>, start: usize) -> (r: Vec<char>)
    requires
        start <= s@.len(),
    ensures
        r@ == before_colon(s@.subrange(start as int, s@.len() as int)),
{
    let mut end: usize = start;
    while end < s.len() && s[end] != ':'
        invariant
            start <= end <= s@.len(),
            forall|j: int| start <= j < end ==> s@[j] != ':',
        decreases s.len() - end,
    {
        end = end + 1;
    }
    proof {
        lemma_before_colon(s@, start as int, end as int);
    }
    let mut out: Vec<char> = Vec::new();
    let mut i: usize = start;
    while i < end
        invariant
            start <= i <= end <= s@.len(),
            out@ == s@.subrange(start as int, i as int),
        decreases end - i,
    {
        out.push(s[i]);
        i = i + 1;
        assert(out@ =~= s@.subrange(start as int, i as int));
    }
    out
}

proof fn lemma_before_colon(s: Seq<char>, start: int, end: int)
    requires
        0 <= start <= end <= s.len(),
        forall|j: int| start <= j < end ==> s[j] != ':',
        end == s.len() || s[end] == ':',
    ensures
        before_colon(s.subrange(start, s.len() as int)) == s.subrange(start, end),
    decreases end - start,
{
    let t = s.subrange(start, s.len() as int);
    if start < end {
        lemma_before_colon(s, start + 1, end);
        assert(t.drop_first() =~= s.subrange(start + 1, s.len() as int));
        assert(s.subrange(start, end) =~= seq![s[start]] + s.subrange(start + 1, end));
    } else {
        assert(t.len() == 0 || t[0] == ':');
        assert(s.subrange(start, end) =~= Seq::<char>::empty());
    }
}

/// The value of a decimal `u32` text, if it is one.
pub fn parse_u32(t: &Vec<char>) -> (r: Option<u32>)
    ensures
        r is Some <==> u32_text(t@),
        r matches Some(v) ==> v as int == dec_value(unsigned_digits(t@)),
{
    let start: usize = if t.len() > 0 && t[0] == '+' { 1 } else { 0 };
    let ghost d = unsigned_digits(t@);
    assert(d =~= t@.subrange(start as int, t@.len() as int));
    if t.len() == start {
        return None;
    }
    let mut value: u64 = 0;
    let mut i: usize = start;
    while i < t.len()
        invariant
            start <= i <= t@.len(),
            d == t@.subrange(start as int, t@.len() as int),
            d == unsigned_digits(t@),
            forall|j: int| 0 <= j < i - start ==> is_digit(#[trigger] d[j]),
            value as int == dec_value(d.subrange(0, i - start)),
            value <= u32::MAX,
        decreases t.len() - i,
    {
        let c = t[i];
        if !('0' <= c && c <= '9') {
            assert(d[i - start] == c);
            assert(!is_digit(d[i - start]));
            assert(!u32_text(t@)) by {
                assert(unsigned_digits(t@) == d);
                assert(0 <= i - start < d.len());
            }
            return None;
        }
        assert(d.subrange(0, i - start + 1).drop_last() =~= d.subrange(0, i - start));
        let next = value * 10 + (c as u64 - '0' as u64);
        if next > u32::MAX as u64 {
            proof {
                if forall|j: int| 0 <= j < d.len() ==> is_digit(#[trigger] d[j]) {
                    lemma_dec_value_prefix_bound(d, i - start + 1);
                }
            }
            return None;
        }
        value = next;
        i = i + 1;
    }
    assert(d.subrange(0, d.len() as int) =~= d);
    Some(value as u32)
}

proof fn lemma_dec_value_prefix_bound(d: Seq<char>, k: int)
    requires
        0 <= k <= d.len(),
        forall|j: int| 0 <= j < d.len() ==> is_digit(#[trigger] d[j]),
    ensures
        dec_value(d) >= dec_value(d.subrange(0, k)),
    decreases d.len() - k,
{
    if k < d.len() {
        lemma_dec_value_prefix_bound(d, k + 1);
        assert(d.subrange(0, k + 1).drop_last() =~= d.subrange(0, k));
        assert(dec_value(d.subrange(0, k)) >= 0) by {
            lemma_dec_value_nonneg(d.subrange(0, k));
        }
    } else {
        assert(d.subrange(0, k) =~= d);
    }
}

proof fn lemma_dec_value_nonneg(d: Seq<char>)
    requires
        forall|j: int| 0 <= j < d.len() ==> is_digit(#[trigger] d[j]),
    ensures
        dec_value(d) >= 0,
    decreases d.len(),
{
    if d.len() > 0 {
        lemma_dec_value_nonneg(d.drop_last());
    }
}

/// Resolves a requested source identifier into a capture target (see
/// `target_of`); an absent identifier means the default output.
pub fn resolve_source(source_id: Option<&str>, per_process_platform: bool, per_process_available: bool) -> (r: Result<CaptureTarget, CaptureError>)
    ensures
        source_id is None ==> r matches Ok(CaptureTarget::DefaultOutputLoopback),
        source_id matches Some(id) ==> {
            let k = target_of(id@, per_process_platform, per_process_available);
            &&& k == 0 ==> (r matches Ok(CaptureTarget::DefaultOutputLoopback))
            &&& k == 1 ==> (r matches Ok(CaptureTarget::OutputLoopback(n)) && n@ == strip_all(id@, "output:"@))
            &&& k == 2 ==> (r matches Ok(CaptureTarget::Input(n)) && n@ == strip_all(id@, "input:"@))
            &&& k == 3 ==> (r matches Ok(CaptureTarget::ProcessLoopback(pid)) && pid as int == dec_value(
                unsigned_digits(before_colon(id@.subrange(4, id@.len() as int))),
            ))
            &&& k == 4 ==> (r matches Err(CaptureError::SourceNotFound(m)) && m@ == invalid_app_source_text(id@))
        },
{
    let id = match source_id {
        Some(id) => id,
        None => return Ok(CaptureTarget::DefaultOutputLoopback),
    };
    if same_text(id, "system_audio") {
        return Ok(CaptureTarget::DefaultOutputLoopback);
    }
    let chars = chars_of(id);
    let output_prefix = chars_of("output:");
    let input_prefix = chars_of("input:");
    let app_prefix = chars_of("app:");
    proof {
        reveal_strlit("output:");
        reveal_strlit("input:");
        reveal_strlit("app:");
    }
    if starts_with(&chars, &output_prefix) {
        return Ok(CaptureTarget::OutputLoopback(string_from_chars(trim_start_matches(&chars, &output_prefix))));
    }
    if starts_with(&chars, &input_prefix) {
        return Ok(CaptureTarget::Input(string_from_chars(trim_start_matches(&chars, &input_prefix))));
    }
    if starts_with(&chars, &app_prefix) && per_process_platform {
        let field = field_before_colon(&chars, 4);
        return match parse_u32(&field) {
            Some(pid) => {
                if per_process_available {
                    Ok(CaptureTarget::ProcessLoopback(pid))
                } else {
                    Ok(CaptureTarget::DefaultOutputLoopback)
                }
            },
            None => Err(CaptureError::SourceNotFound(concat("Invalid app source: ", id))),
        };
    }
    Ok(CaptureTarget::DefaultOutputLoopback)
}

/// An entry of the source list, from its parts.
fn source_entry(prefix: &str, label: &str, device: &str, source_type: SourceType) -> (r: AudioSource)
    ensures
        r.id@ == prefix@ + device@,
        r.name@ == label@ + device@,
        r.source_type == source_type,
{
    AudioSource { id: concat(prefix, device), name: concat(label, device), source_type }
}

/// Output devices that get their own loopback entry: all but the default
/// output device, which the system-audio entry already stands for.
pub open spec fn kept_output(default_output: Option<String>) -> spec_fn(String) -> bool {
    |n: String|
        match default_output {
            Some(d) => n@ != d@,
            None => true,
        }
}

/// The list entry for system audio, named after the default output device.
pub open spec fn system_entry_ok(s: &AudioSource, default_name: Seq<char>) -> bool {
    &&& s.id@ == "system_audio"@
    &&& s.name@ == "System Audio ("@ + default_name + ")"@
    &&& s.source_type == SourceType::SystemAudio
}

/// The source list: system audio first (when there is a default output
/// device), then the per-application sources, then each other output
/// device as a loopback source, then each input device.
pub fn build_source_list(
    default_output: Option<String>,
    app_sources: Vec<AudioSource>,
    output_names: &Vec<String>,
    input_names: &Vec<String>,
) -> (r: Vec<AudioSource>)
    ensures
        ({
            let base: int = if default_output is Some { 1 } else { 0 };
            let apps = app_sources@.len() as int;
            let outs = r@.len() - base - apps - input_names@.len();
            &&& default_output matches Some(d) ==> system_entry_ok(&r@[0], d@)
            &&& r@.len() >= base + apps + input_names@.len()
            &&& forall|k: int| 0 <= k < apps ==> #[trigger] r@[base + k] == app_sources@[k]
            &&& outs == output_names@.filter(kept_output(default_output)).len()
            &&& forall|k: int| 0 <= k < outs ==> {
                let n = output_names@.filter(kept_output(default_output))[k];
                &&& (#[trigger] r@[base + apps + k]).id@ == "output:"@ + n@
                &&& r@[base + apps + k].name@ == "Loopback: "@ + n@
                &&& r@[base + apps + k].source_type == SourceType::SystemAudio
            }
            &&& forall|k: int| 0 <= k < input_names@.len() ==> {
                &&& (#[trigger] r@[base + apps + outs + k]).id@ == "input:"@ + input_names@[k]@
                &&& r@[base + apps + outs + k].name@ == "Input: "@ + input_names@[k]@
                &&& r@[base + apps + outs + k].source_type == SourceType::InputDevice
            }
        }),
{
    let mut out: Vec<AudioSource> = Vec::new();
    let ghost keep = kept_output(default_output);
    match &default_output {
        Some(d) => {
            let name = concat("System Audio (", d.as_str());
            let name = concat(name.as_str(), ")");
            out.push(AudioSource { id: "system_audio".to_string(), name, source_type: SourceType::SystemAudio });
        },
        None => {},
    }
    let mut apps = app_sources;
    out.append(&mut apps);
    let ghost before_outs = out@;
    let mut i: usize = 0;
    while i < output_names.len()
        invariant
            i <= output_names@.len(),
            keep == kept_output(default_output),
            out@.len() == before_outs.len() + output_names@.subrange(0, i as int).filter(keep).len(),
            forall|k: int| 0 <= k < before_outs.len() ==> #[trigger] out@[k] == before_outs[k],
            forall|k: int| 0 <= k < out@.len() - before_outs.len() ==> {
                let n = output_names@.subrange(0, i as int).filter(keep)[k];
                &&& (#[trigger] out@[before_outs.len() + k]).id@ == "output:"@ + n@
                &&& out@[before_outs.len() + k].name@ == "Loopback: "@ + n@
                &&& out@[before_outs.len() + k].source_type == SourceType::SystemAudio
            },
        decreases output_names.len() - i,
    {
        let n = &output_names[i];
        let skip = match &default_output {
            Some(d) => same_text(n.as_str(), d.as_str()),
            None => false,
        };
        proof {
            let pre = output_names@.subrange(0, i as int);
            assert(output_names@.subrange(0, i + 1) =~= pre.push(*n));
            reveal(Seq::filter);
            assert(pre.push(*n).drop_last() =~= pre);
            assert(pre.push(*n).filter(keep) == if keep(*n) {
                pre.filter(keep).push(*n)
            } else {
                pre.filter(keep)
            });
            assert(keep(*n) == !skip);
        }
        if !skip {
            out.push(source_entry("output:", "Loopback: ", n.as_str(), SourceType::SystemAudio));
        }
        i = i + 1;
    }
    assert(output_names@.subrange(0, output_names@.len() as int) =~= output_names@);
    let ghost before_ins = out@;
    let mut j: usize = 0;
    while j < input_names.len()
        invariant
            j <= input_names@.len(),
            out@.len() == before_ins.len() + j,
            forall|k: int| 0 <= k < before_ins.len() ==> #[trigger] out@[k] == before_ins[k],
            forall|k: int| 0 <= k < j ==> {
                &&& (#[trigger] out@[before_ins.len() + k]).id@ == "input:"@ + input_names@[k]@
                &&& out@[before_ins.len() + k].name@ == "Input: "@ + input_names@[k]@
                &&& out@[before_ins.len() + k].source_type == SourceType::InputDevice
            },
        decreases input_names.len() - j,
    {
        out.push(source_entry("input:", "Input: ", input_names[j].as_str(), SourceType::InputDevice));
        j = j + 1;
    }
    out
}

} // verus!
