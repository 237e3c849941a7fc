//! The frame-count cooldown that keeps onset beats from chattering.
//!
//! The analyzer decides per frame whether the bass signal is an onset
//! candidate; this gate decides whether the candidate fires.

use vstd::prelude::*;

verus! {

/// Frames for which a fired onset blocks the next one.
pub const BEAT_COOLDOWN_FRAMES: u32 = 8;

/// Countdown after one frame: it is decremented first, and a candidate
/// fires only when it has reached zero; firing restarts it.
pub open spec fn gate_step(cooldown: nat, candidate: bool) -> (nat, bool) {
    let mid: nat = if cooldown > 0 { (cooldown - 1) as nat } else { 0 };
    if mid == 0 && candidate {
        (BEAT_COOLDOWN_FRAMES as nat, true)
    } else {
        (mid, false)
    }
}

/// Whether any of the candidates fires, frame by frame, from `cooldown`.
pub open spec fn any_fires(cooldown: nat, candidates: Seq<bool>) -> bool
    decreases candidates.len(),
{
    if candidates.len() == 0 {
        false
    } else {
        let (next, fired) = gate_step(cooldown, candidates[0]);
        fired || any_fires(next, candidates.drop_first())
    }
}

/// The beat cooldown of the onset detector.
pub struct BeatGate {
    cooldown: u32,
}

impl BeatGate {
    pub closed spec fn spec_cooldown(&self) -> nat {
        self.cooldown as nat
    }

    pub closed spec fn wf(&self) -> bool {
        self.cooldown <= BEAT_COOLDOWN_FRAMES
    }

    /// A gate that lets the first candidate fire.
    pub fn new() -> (r: Self)
        ensures
            r.wf(),
            r.spec_cooldown() == 0,
    {
        BeatGate { cooldown: 0 }
    }

    /// Frames left before a candidate may fire again.
    pub fn cooldown(&self) -> (r: u32)
        ensures
            r == self.spec_cooldown(),
    {
        self.cooldown
    }

    /// One analysis frame; returns whether the candidate fired.
    pub fn step(&mut self, candidate: bool) -> (fired: bool)
        requires
            old(self).wf(),
        ensures
            final(self).wf(),
            (final(self).spec_cooldown(), fired) == gate_step(old(self).spec_cooldown(), candidate),
    {
        if self.cooldown > 0 {
            self.cooldown = self.cooldown - 1;
        }
        if self.cooldown == 0 && candidate {
            self.cooldown = BEAT_COOLDOWN_FRAMES;
            true
        } else {
            false
        }
    }
}

/// From a countdown larger than the number of frames, nothing fires.
pub proof fn lemma_quiet_while_cooling(cooldown: nat, candidates: Seq<bool>)
    requires
        cooldown > candidates.len(),
    ensures
        !any_fires(cooldown, candidates),
    decreases candidates.len(),
{
    if candidates.len() > 0 {
        lemma_quiet_while_cooling((cooldown - 1) as nat, candidates.drop_first());
    }
}

/// Law of the beat cooldown: after a beat fires at some frame, no beat fires
/// at any of the next seven frames, whatever the candidates are.
pub proof fn lemma_no_beat_within_cooldown(cooldown: nat, candidate: bool, next: Seq<bool>)
    requires
        gate_step(cooldown, candidate).1,
        next.len() <= BEAT_COOLDOWN_FRAMES - 1,
    ensures
        !any_fires(gate_step(cooldown, candidate).0, next),
{
    lemma_quiet_while_cooling(gate_step(cooldown, candidate).0, next);
}

} // verus!
