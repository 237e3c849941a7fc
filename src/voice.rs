//! Voice framing: 48 kHz mono 16-bit samples are cut into 20 ms frames,
//! encoded as little-endian PCM, base64-encoded and queued with a bounded,
//! drop-oldest queue; frames leave the queue with monotone sequence numbers.
//!
//! Down-mixing, resampling and the float-to-`i16` conversion happen before
//! the samples reach this module; the integer arithmetic of the resampler
//! (how many samples come out, where each one is read from, how much of the
//! input was used) is here.

use base64::Engine;
use vstd::prelude::*;

use crate::ring_buffer::last_n;

verus! {

/// Number of samples per voice frame (20 ms at 48 kHz).
pub const VOICE_FRAME_SAMPLES: usize = 960;

/// Maximum number of queued frames; the oldest is dropped beyond this.
pub const MAX_QUEUED_FRAMES: usize = 50;

/// Sample rate of the voice stream.
pub const VOICE_SAMPLE_RATE: u32 = 48000;

/// Number of distinct sequence numbers; they wrap around after this.
pub open spec fn seq_modulus() -> int {
    0x1_0000_0000_0000_0000
}

/// What base64's standard engine returns when encoding `bytes`.
pub uninterp spec fn base64_of(bytes: Seq<u8>) -> Seq<char>;

/// Relies on `base64::engine::general_purpose::STANDARD.encode`: standard
/// alphabet with padding, a function of the bytes alone.
#[verifier::external_body]
fn base64_encode(bytes: &Vec<u8>) -> (r: String)
    ensures
        r@ == base64_of(bytes@),
{
    base64::engine::general_purpose::STANDARD.encode(bytes)
}

/// The little-endian bytes of a sequence of 16-bit samples: low byte first.
pub open spec fn le_bytes(s: Seq<i16>) -> Seq<u8> {
    Seq::new(
        2 * s.len(),
        |j: int|
            if j % 2 == 0 {
                ((s[j / 2] as u16) as int % 256) as u8
            } else {
                ((s[j / 2] as u16) as int / 256) as u8
            },
    )
}

/// The text payload of one PCM frame.
pub open spec fn pcm_payload(frame: Seq<i16>) -> Seq<char> {
    base64_of(le_bytes(frame))
}

/// The complete frames that `s` holds, in order.
pub open spec fn frames_of(s: Seq<i16>) -> Seq<Seq<i16>> {
    Seq::new(
        s.len() / VOICE_FRAME_SAMPLES as nat,
        |k: int|
            s.subrange(k * VOICE_FRAME_SAMPLES as int, k * VOICE_FRAME_SAMPLES as int + VOICE_FRAME_SAMPLES as int),
    )
}

/// What is left of `s` after its complete frames.
pub open spec fn remainder_of(s: Seq<i16>) -> Seq<i16> {
    s.subrange((s.len() / VOICE_FRAME_SAMPLES as nat) * VOICE_FRAME_SAMPLES as int, s.len() as int)
}

/// The PCM payload of a frame: the samples as little-endian bytes, in base64.
pub fn encode_pcm_frame(samples: &[i16]) -> (r: String)
    requires
        samples@.len() <= usize::MAX / 2,
    ensures
        r@ == pcm_payload(samples@),
{
    let mut bytes: Vec<u8> = Vec::new();
    let mut i: usize = 0;
    while i < samples.len()
        invariant
            i <= samples@.len(),
            samples@.len() <= usize::MAX / 2,
            bytes@ == le_bytes(samples@.subrange(0, i as int)),
        decreases samples.len() - i,
    {
        let u = samples[i] as u16;
        bytes.push((u % 256) as u8);
        bytes.push((u / 256) as u8);
        i = i + 1;
        assert(bytes@ =~= le_bytes(samples@.subrange(0, i as int)));
    }
    assert(samples@.subrange(0, samples@.len() as int) =~= samples@);
    base64_encode(&bytes)
}

/// Voice chat availability as the server reports it.
pub struct VoiceStatus {
    pub available: bool,
    pub streaming: bool,
    pub channel_type: String,
    pub connected_players: u32,
}

impl Default for VoiceStatus {
    fn default() -> (r: Self)
        ensures
            !r.available,
            !r.streaming,
            r.channel_type@ == "static"@,
            r.connected_players == 0,
    {
        VoiceStatus { available: false, streaming: false, channel_type: "static".to_string(), connected_players: 0 }
    }
}

/// One frame leaving the queue: payload, sequence number, codec label.
#[derive(Clone)]
pub struct VoiceFrame {
    pub data: String,
    pub seq: u64,
    pub codec: String,
}

/// The framing and queueing half of the voice pipeline.
pub struct VoiceStreamer {
    enabled: bool,
    seq: u64,
    frame_buffer: Vec<i16>,
    frames: Vec<String>,
    source_sample_rate: u32,
    source_channels: u16,
    codec: String,
    /// The samples of each queued frame, oldest first.
    queued: Ghost<Seq<Seq<i16>>>,
}

impl VoiceStreamer {
    pub closed spec fn spec_enabled(&self) -> bool {
        self.enabled
    }

    pub closed spec fn spec_seq(&self) -> u64 {
        self.seq
    }

    /// Samples that wait for a frame to fill.
    pub closed spec fn pending(&self) -> Seq<i16> {
        self.frame_buffer@
    }

    /// The samples of each queued frame, oldest first.
    pub closed spec fn queued(&self) -> Seq<Seq<i16>> {
        self.queued@
    }

    pub closed spec fn spec_source_sample_rate(&self) -> u32 {
        self.source_sample_rate
    }

    pub closed spec fn spec_source_channels(&self) -> u16 {
        self.source_channels
    }

    pub closed spec fn wf(&self) -> bool {
        &&& self.frame_buffer@.len() < VOICE_FRAME_SAMPLES
        &&& self.queued@.len() <= MAX_QUEUED_FRAMES
        &&& self.frames@.len() == self.queued@.len()
        &&& forall|k: int| 0 <= k < self.frames@.len() ==> #[trigger] self.frames@[k]@ == pcm_payload(self.queued@[k])
        &&& self.codec@ == "pcm"@
        &&& self.source_channels >= 1
    }

    /// A disabled streamer with empty buffers for the given source format;
    /// a channel count of 0 counts as 1.
    pub fn new(source_sample_rate: u32, source_channels: u16) -> (r: Self)
        ensures
            r.wf(),
            !r.spec_enabled(),
            r.spec_seq() == 0,
            r.pending().len() == 0,
            r.queued().len() == 0,
            r.spec_source_sample_rate() == source_sample_rate,
            r.spec_source_channels() == if source_channels == 0 { 1 } else { source_channels },
    {
        VoiceStreamer {
            enabled: false,
            seq: 0,
            frame_buffer: Vec::new(),
            frames: Vec::new(),
            source_sample_rate,
            source_channels: if source_channels == 0 { 1 } else { source_channels },
            codec: "pcm".to_string(),
            queued: Ghost(Seq::empty()),
        }
    }

    /// Turns streaming on or off; turning it off drops every buffered sample
    /// and queued frame.
    pub fn set_enabled(&mut self, enabled: bool)
        requires
            old(self).wf(),
        ensures
            final(self).wf(),
            final(self).spec_enabled() == enabled,
            final(self).spec_seq() == old(self).spec_seq(),
            final(self).spec_source_sample_rate() == old(self).spec_source_sample_rate(),
            final(self).spec_source_channels() == old(self).spec_source_channels(),
            enabled ==> final(self).pending() == old(self).pending(),
            enabled ==> final(self).queued() == old(self).queued(),
            !enabled ==> final(self).pending().len() == 0,
            !enabled ==> final(self).queued().len() == 0,
    {
        self.enabled = enabled;
        if !enabled {
            self.frame_buffer.clear();
            self.frames.clear();
            self.queued = Ghost(Seq::empty());
        }
    }

    pub fn is_enabled(&self) -> (r: bool)
        ensures
            r == self.spec_enabled(),
    {
        self.enabled
    }

    /// The sequence number the next drained frame gets.
    pub fn current_seq(&self) -> (r: u64)
        ensures
            r == self.spec_seq(),
    {
        self.seq
    }

    pub fn source_sample_rate(&self) -> (r: u32)
        ensures
            r == self.spec_source_sample_rate(),
    {
        self.source_sample_rate
    }

    pub fn source_channels(&self) -> (r: u16)
        ensures
            r == self.spec_source_channels(),
    {
        self.source_channels
    }

    /// Queues one encoded frame, dropping the oldest when the queue is full.
    fn enqueue(&mut self, frame: &[i16])
        requires
            old(self).wf(),
            frame@.len() == VOICE_FRAME_SAMPLES,
        ensures
            final(self).wf(),
            final(self).queued() == last_n(old(self).queued().push(frame@), MAX_QUEUED_FRAMES as nat),
            final(self).pending() == old(self).pending(),
            final(self).spec_enabled() == old(self).spec_enabled(),
            final(self).spec_seq() == old(self).spec_seq(),
            final(self).spec_source_sample_rate() == old(self).spec_source_sample_rate(),
            final(self).spec_source_channels() == old(self).spec_source_channels(),
    {
        let encoded = encode_pcm_frame(frame);
        let ghost q0 = self.queued@;
        if self.frames.len() >= MAX_QUEUED_FRAMES {
            self.frames.remove(0);
            self.queued = Ghost(self.queued@.drop_first());
        }
        self.frames.push(encoded);
        self.queued = Ghost(self.queued@.push(frame@));
        proof {
            assert(self.queued@ =~= last_n(q0.push(frame@), MAX_QUEUED_FRAMES as nat));
            assert forall|k: int| 0 <= k < self.frames@.len() implies #[trigger] self.frames@[k]@
                == pcm_payload(self.queued@[k]) by {
                if k < self.frames@.len() - 1 {
                    if q0.len() >= MAX_QUEUED_FRAMES {
                        assert(self.queued@[k] == q0[k + 1]);
                    }
                }
            }
        }
    }

    /// Feeds 48 kHz mono samples. While streaming is enabled they join the
    /// pending samples, every complete 960-sample frame is encoded and
    /// queued (the oldest frame is dropped beyond 50), and the rest waits.
    /// While disabled nothing changes.
    pub fn push_samples(&mut self, samples: &[i16])
        requires
            old(self).wf(),
        ensures
            final(self).wf(),
            final(self).spec_enabled() == old(self).spec_enabled(),
            final(self).spec_seq() == old(self).spec_seq(),
            final(self).spec_source_sample_rate() == old(self).spec_source_sample_rate(),
            final(self).spec_source_channels() == old(self).spec_source_channels(),
            !old(self).spec_enabled() ==> final(self).pending() == old(self).pending()
                && final(self).queued() == old(self).queued(),
            old(self).spec_enabled() ==> final(self).pending() == remainder_of(old(self).pending() + samples@),
            old(self).spec_enabled() ==> final(self).queued() == last_n(
                old(self).queued() + frames_of(old(self).pending() + samples@),
                MAX_QUEUED_FRAMES as nat,
            ),
    {
        if !self.enabled {
            return;
        }
        if samples.len() == 0 {
            proof {
                assert(old(self).pending() + samples@ =~= old(self).pending());
                assert(frames_of(old(self).pending()) =~= Seq::<Seq<i16>>::empty());
                assert(remainder_of(old(self).pending()) =~= old(self).pending());
                assert(old(self).queued() + Seq::<Seq<i16>>::empty() =~= old(self).queued());
            }
            return;
        }
        let ghost all = self.frame_buffer@ + samples@;
        let ghost q0 = self.queued@;
        let mut buffer: Vec<i16> = Vec::new();
        std::mem::swap(&mut buffer, &mut self.frame_buffer);
        let mut i: usize = 0;
        while i < samples.len()
            invariant
                i <= samples@.len(),
                all == old(self).pending() + samples@,
                buffer@ == old(self).pending() + samples@.subrange(0, i as int),
            decreases samples.len() - i,
        {
            buffer.push(samples[i]);
            i = i + 1;
            assert(buffer@ =~= old(self).pending() + samples@.subrange(0, i as int));
        }
        assert(buffer@ =~= all);
        let total = buffer.len();
        let mut pos: usize = 0;
        let ghost mut k: int = 0;
        while total - pos >= VOICE_FRAME_SAMPLES
            invariant
                self.wf(),
                self.spec_enabled() == old(self).spec_enabled(),
                self.spec_seq() == old(self).spec_seq(),
                self.spec_source_sample_rate() == old(self).spec_source_sample_rate(),
                self.spec_source_channels() == old(self).spec_source_channels(),
                buffer@ == all,
                total == all.len(),
                pos <= total,
                pos == k * VOICE_FRAME_SAMPLES,
                0 <= k <= frames_of(all).len(),
                self.queued() == last_n(q0 + frames_of(all).subrange(0, k), MAX_QUEUED_FRAMES as nat),
            decreases total - pos,
        {
            let mut frame: Vec<i16> = Vec::new();
            let mut j: usize = 0;
            while j < VOICE_FRAME_SAMPLES
                invariant
                    j <= VOICE_FRAME_SAMPLES,
                    pos + VOICE_FRAME_SAMPLES <= total,
                    total == buffer@.len(),
                    frame@ == buffer@.subrange(pos as int, pos + j),
                decreases VOICE_FRAME_SAMPLES - j,
            {
                frame.push(buffer[pos + j]);
                j = j + 1;
                assert(frame@ =~= buffer@.subrange(pos as int, pos + j));
            }
            proof {
                assert(k < frames_of(all).len()) by {
                    assert((k + 1) * VOICE_FRAME_SAMPLES <= all.len());
                    vstd::arithmetic::div_mod::lemma_fundamental_div_mod(all.len() as int, VOICE_FRAME_SAMPLES as int);
                }
                assert(frame@ == frames_of(all)[k]);
                let before = q0 + frames_of(all).subrange(0, k);
                let after = q0 + frames_of(all).subrange(0, k + 1);
                assert(after =~= before.push(frame@));
                lemma_last_n_push(before, frame@, MAX_QUEUED_FRAMES as nat);
            }
            self.enqueue(frame.as_slice());
            pos = pos + VOICE_FRAME_SAMPLES;
            proof { k = k + 1; }
        }
        proof {
            vstd::arithmetic::div_mod::lemma_fundamental_div_mod(all.len() as int, VOICE_FRAME_SAMPLES as int);
            assert(k == frames_of(all).len());
            assert(frames_of(all).subrange(0, k) =~= frames_of(all));
        }
        let mut rest: Vec<i16> = Vec::new();
        let mut j: usize = pos;
        while j < total
            invariant
                pos <= j <= total,
                total == buffer@.len(),
                rest@ == buffer@.subrange(pos as int, j as int),
            decreases total - j,
        {
            rest.push(buffer[j]);
            j = j + 1;
            assert(rest@ =~= buffer@.subrange(pos as int, j as int));
        }
        self.frame_buffer = rest;
    }

    /// Removes every queued frame and returns them oldest first, numbered
    /// from the current sequence number on (wrapping at 2^64).
    pub fn drain_frames(&mut self) -> (r: Vec<VoiceFrame>)
        requires
            old(self).wf(),
        ensures
            final(self).wf(),
            final(self).queued().len() == 0,
            final(self).pending() == old(self).pending(),
            final(self).spec_enabled() == old(self).spec_enabled(),
            final(self).spec_source_sample_rate() == old(self).spec_source_sample_rate(),
            final(self).spec_source_channels() == old(self).spec_source_channels(),
            final(self).spec_seq() == (old(self).spec_seq() + old(self).queued().len()) % seq_modulus(),
            r@.len() == old(self).queued().len(),
            forall|k: int| 0 <= k < r@.len() ==> {
                &&& (#[trigger] r@[k]).data@ == pcm_payload(old(self).queued()[k])
                &&& r@[k].seq == (old(self).spec_seq() + k) % seq_modulus()
                &&& r@[k].codec@ == "pcm"@
            },
    {
        let mut queue: Vec<String> = Vec::new();
        std::mem::swap(&mut queue, &mut self.frames);
        let ghost q = self.queued@;
        let ghost s0 = self.seq;
        self.queued = Ghost(Seq::empty());
        let mut result: Vec<VoiceFrame> = Vec::new();
        let mut i: usize = 0;
        let n = queue.len();
        while i < n
            invariant
                self.wf(),
                self.queued@.len() == 0,
                self.frame_buffer@ == old(self).frame_buffer@,
                self.enabled == old(self).enabled,
                self.source_sample_rate == old(self).source_sample_rate,
                self.source_channels == old(self).source_channels,
                n == queue@.len(),
                n == q.len(),
                forall|k: int| 0 <= k < n ==> #[trigger] queue@[k]@ == pcm_payload(q[k]),
                self.codec@ == "pcm"@,
                i <= n,
                self.seq == (s0 + i) % seq_modulus(),
                result@.len() == i,
                forall|k: int| 0 <= k < i ==> {
                    &&& (#[trigger] result@[k]).data@ == pcm_payload(q[k])
                    &&& result@[k].seq == (s0 + k) % seq_modulus()
                    &&& result@[k].codec@ == "pcm"@
                },
            decreases n - i,
        {
            let data = queue[i].clone();
            let codec = self.codec.clone();
            let seq = self.seq;
            result.push(VoiceFrame { data, seq, codec });
            self.seq = self.seq.wrapping_add(1);
            proof {
                vstd::arithmetic::div_mod::lemma_add_mod_noop(s0 + i, 1, seq_modulus());
                vstd::arithmetic::div_mod::lemma_small_mod(1, seq_modulus() as nat);
            }
            i = i + 1;
        }
        result
    }
}

/// Appending one element and keeping the last `n` gives the same result
/// whether or not the sequence was first cut to its last `n`.
pub proof fn lemma_last_n_push<T>(s: Seq<T>, x: T, n: nat)
    requires
        n >= 1,
    ensures
        last_n(last_n(s, n).push(x), n) == last_n(s.push(x), n),
{
    assert(last_n(last_n(s, n).push(x), n) =~= last_n(s.push(x), n));
}

/// Law of the frame queue: whatever is pushed, a well-formed streamer never
/// holds more than 50 frames.
pub proof fn lemma_queue_is_bounded(v: &VoiceStreamer)
    requires
        v.wf(),
    ensures
        v.queued().len() <= MAX_QUEUED_FRAMES,
{
}

/// Number of output samples when `input_len` samples are resampled from
/// `from_rate` to `to_rate`: the input itself at equal rates, otherwise
/// `floor(input_len * to_rate / from_rate)`.
pub open spec fn resampled_len(input_len: nat, from_rate: nat, to_rate: nat) -> nat {
    if from_rate == to_rate {
        input_len
    } else {
        (input_len * to_rate) / from_rate
    }
}

/// Length of the resampled output.
pub fn resample_len(input_len: usize, from_rate: u32, to_rate: u32) -> (r: usize)
    requires
        from_rate > 0,
        input_len as int * to_rate as int / from_rate as int <= usize::MAX,
    ensures
        r == resampled_len(input_len as nat, from_rate as nat, to_rate as nat),
{
    if from_rate == to_rate {
        input_len
    } else {
        proof {
            assert(input_len as int * to_rate as int <= 0xffff_ffff_ffff_ffff * 0xffff_ffff) by (nonlinear_arith)
                requires input_len <= 0xffff_ffff_ffff_ffff, to_rate <= 0xffff_ffff;
        }
        let wide = (input_len as u128) * (to_rate as u128);
        (wide / (from_rate as u128)) as usize
    }
}

/// Where output sample `i` is read from: the index of the earlier input
/// sample and the weight of the later one, in units of `1 / to_rate`.
pub open spec fn source_position(i: nat, from_rate: nat, to_rate: nat) -> (nat, nat) {
    ((i * from_rate) / to_rate, (i * from_rate) % to_rate)
}

/// The input index and the interpolation weight (over `to_rate`) of output
/// sample `i`.
pub fn resample_position(i: usize, from_rate: u32, to_rate: u32) -> (r: (usize, u32))
    requires
        to_rate > 0,
        i as int * from_rate as int / to_rate as int <= usize::MAX,
    ensures
        (r.0 as nat, r.1 as nat) == source_position(i as nat, from_rate as nat, to_rate as nat),
{
    proof {
        assert(i as int * from_rate as int <= 0xffff_ffff_ffff_ffff * 0xffff_ffff) by (nonlinear_arith)
            requires i <= 0xffff_ffff_ffff_ffff, from_rate <= 0xffff_ffff;
    }
    let wide = (i as u128) * (from_rate as u128);
    proof {
        vstd::arithmetic::div_mod::lemma_mod_bound(wide as int, to_rate as int);
    }
    ((wide / (to_rate as u128)) as usize, (wide % (to_rate as u128)) as u32)
}

/// Number of input samples used up by `output_len` output samples:
/// `output_len` at equal rates, otherwise `ceil(output_len * from_rate /
/// to_rate)`, never more than `available`.
pub fn consumed_source_samples(output_len: usize, from_rate: u32, to_rate: u32, available: usize) -> (r: usize)
    requires
        to_rate > 0,
    ensures
        r == if from_rate == to_rate {
            if output_len <= available { output_len as int } else { available as int }
        } else {
            let c = (output_len as int * from_rate as int + to_rate as int - 1) / to_rate as int;
            if c <= available { c } else { available as int }
        },
{
    if from_rate == to_rate {
        if output_len <= available { output_len } else { available }
    } else {
        proof {
            assert(output_len as int * from_rate as int <= 0xffff_ffff_ffff_ffff * 0xffff_ffff) by (nonlinear_arith)
                requires output_len <= 0xffff_ffff_ffff_ffff, from_rate <= 0xffff_ffff;
        }
        let c = ((output_len as u128) * (from_rate as u128) + (to_rate as u128) - 1) / (to_rate as u128);
        if c <= available as u128 { c as usize } else { available }
    }
}

/// Law of the resampler: at equal rates it is the identity (as many samples
/// come out as go in, each read from the same index with no weight on the
/// next one); at twice or half the rate the output length is
/// `floor(input_len * to_rate / from_rate)`.
pub proof fn lemma_resample_passthrough(input_len: nat, rate: nat, i: nat)
    requires
        rate > 0,
    ensures
        resampled_len(input_len, rate, rate) == input_len,
        source_position(i, rate, rate) == (i, 0nat),
        resampled_len(input_len, 2 * rate, rate) == input_len / 2,
        resampled_len(input_len, rate, 2 * rate) == 2 * input_len,
{
    assert((i * rate) / rate == i && (i * rate) % rate == 0) by (nonlinear_arith)
        requires rate > 0;
    assert((input_len * rate) / (2 * rate) == input_len / 2) by (nonlinear_arith)
        requires rate > 0;
    assert((input_len * (2 * rate)) / rate == 2 * input_len) by (nonlinear_arith)
        requires rate > 0;
}

} // verus!
