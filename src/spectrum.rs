//! Where the five analysis bands lie in an FFT spectrum.
//!
//! Band edges are fixed frequencies (40, 250, 500, 2000, 6000 and 20000 Hz);
//! each maps to the nearest FFT bin, and the top band stops at the Nyquist
//! bin.

use vstd::prelude::*;

verus! {

/// The bin nearest to `freq` Hz: `round(freq * fft_size / sample_rate)`,
/// halves rounded up.
pub open spec fn bin_of(freq: nat, fft_size: nat, sample_rate: nat) -> nat {
    (2 * freq * fft_size + sample_rate) / (2 * sample_rate)
}

/// The bin nearest to `freq` Hz, for the band edges (at most 20 kHz).
fn freq_to_bin(freq: u32, fft_size: u32, sample_rate: u32) -> (r: u64)
    requires
        sample_rate > 0,
        freq <= 20000,
    ensures
        r == bin_of(freq as nat, fft_size as nat, sample_rate as nat),
{
    proof {
        assert(2 * (freq as int) * (fft_size as int) <= 2 * 20000 * 0xffff_ffff) by (nonlinear_arith)
            requires freq <= 20000, fft_size <= 0xffff_ffff;
    }
    let num = 2 * (freq as u64) * (fft_size as u64) + (sample_rate as u64);
    num / (2 * (sample_rate as u64))
}

/// The start and end bins of the five bands (bass, low, mid, high, air).
pub open spec fn band_edges_ok(r: [(u64, u64); 5], fft_size: nat, sample_rate: nat) -> bool {
    let top = bin_of(20000, fft_size, sample_rate);
    &&& r@[0] == (bin_of(40, fft_size, sample_rate) as u64, bin_of(250, fft_size, sample_rate) as u64)
    &&& r@[1] == (bin_of(250, fft_size, sample_rate) as u64, bin_of(500, fft_size, sample_rate) as u64)
    &&& r@[2] == (bin_of(500, fft_size, sample_rate) as u64, bin_of(2000, fft_size, sample_rate) as u64)
    &&& r@[3] == (bin_of(2000, fft_size, sample_rate) as u64, bin_of(6000, fft_size, sample_rate) as u64)
    &&& r@[4] == (bin_of(6000, fft_size, sample_rate) as u64, (if top < fft_size / 2 { top } else { fft_size / 2 }) as u64)
}

/// The bin ranges of the five bands for a spectrum of `fft_size` bins at
/// `sample_rate` Hz.
pub fn band_boundaries(sample_rate: u32, fft_size: u32) -> (r: [(u64, u64); 5])
    requires
        sample_rate > 0,
    ensures
        band_edges_ok(r, fft_size as nat, sample_rate as nat),
{
    let top = freq_to_bin(20000, fft_size, sample_rate);
    let half = (fft_size / 2) as u64;
    [
        (freq_to_bin(40, fft_size, sample_rate), freq_to_bin(250, fft_size, sample_rate)),
        (freq_to_bin(250, fft_size, sample_rate), freq_to_bin(500, fft_size, sample_rate)),
        (freq_to_bin(500, fft_size, sample_rate), freq_to_bin(2000, fft_size, sample_rate)),
        (freq_to_bin(2000, fft_size, sample_rate), freq_to_bin(6000, fft_size, sample_rate)),
        (freq_to_bin(6000, fft_size, sample_rate), if top < half { top } else { half }),
    ]
}

} // verus!
