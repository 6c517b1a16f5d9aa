//! The exponentially smoothed reading.
//!
//! Three channels (power, voltage, frequency) are held as IEEE-754
//! single-precision bit patterns, together with a flag that records whether
//! a first sample has ever been seeded. The blend of two floating-point
//! values is not something the verifier can reason about, so the caller
//! computes it and hands the result in; every decision about *which* value
//! ends up stored — the seed rule, the blend rule, the fault reset and its
//! quirk — is made and proved here.

use vstd::prelude::*;

verus! {

/// One sample produced by a successful poll cycle: the three channel
/// values as 32-bit IEEE-754 bit patterns, decoded from the register pairs.
#[derive(Clone, Copy, Debug, PartialEq, Eq, Structural)]
pub struct RawSample {
    /// Power channel, bit pattern of a single-precision float.
    pub watts_bits: u32,
    /// Voltage channel, bit pattern of a single-precision float.
    pub volts_bits: u32,
    /// Frequency channel, bit pattern of a single-precision float.
    pub frequency_bits: u32,
}

impl RawSample {
    /// The neutral sample: every channel at positive zero
    /// (the all-zero bit pattern).
    pub open spec fn zero_spec() -> RawSample {
        RawSample { watts_bits: 0, volts_bits: 0, frequency_bits: 0 }
    }
}

/// The latest smoothed values of the three channels, plus the flag that
/// says whether a first sample has ever arrived.
#[derive(Clone, Copy, Debug, PartialEq, Eq, Structural)]
pub struct PowerEwma {
    /// True once the first successful sample has been seeded. Never
    /// cleared afterwards, not even by a fault reset.
    pub initialized: bool,
    /// Smoothed power, bit pattern of a single-precision float.
    pub watts_bits: u32,
    /// Smoothed voltage, bit pattern of a single-precision float.
    pub volts_bits: u32,
    /// Smoothed frequency, bit pattern of a single-precision float.
    pub frequency_bits: u32,
}

impl PowerEwma {
    /// The three channels of this reading, as one sample.
    pub open spec fn channels(self) -> RawSample {
        RawSample {
            watts_bits: self.watts_bits,
            volts_bits: self.volts_bits,
            frequency_bits: self.frequency_bits,
        }
    }

    /// The reading as created at process start: no sample yet, every
    /// channel at the neutral zero.
    pub open spec fn fresh_spec() -> PowerEwma {
        PowerEwma { initialized: false, watts_bits: 0, volts_bits: 0, frequency_bits: 0 }
    }

    /// Until the first sample arrives the channels hold nothing but the
    /// neutral zeros; afterwards they may hold anything.
    pub open spec fn wf(self) -> bool {
        !self.initialized ==> self.channels() == RawSample::zero_spec()
    }

    /// Create the reading in its initial state.
    pub fn new() -> (r: PowerEwma)
        ensures
            r == PowerEwma::fresh_spec(),
            r.wf(),
    {
        PowerEwma { initialized: false, watts_bits: 0, volts_bits: 0, frequency_bits: 0 }
    }

    /// What one application of a sample does to the reading: the first
    /// sample ever seen is stored as it is, a later one is replaced by
    /// the caller's blend; the flag is set and stays set.
    pub open spec fn updated_spec(self, sample: RawSample, blended: RawSample) -> PowerEwma {
        if !self.initialized {
            PowerEwma {
                initialized: true,
                watts_bits: sample.watts_bits,
                volts_bits: sample.volts_bits,
                frequency_bits: sample.frequency_bits,
            }
        } else {
            PowerEwma {
                initialized: true,
                watts_bits: blended.watts_bits,
                volts_bits: blended.volts_bits,
                frequency_bits: blended.frequency_bits,
            }
        }
    }

    /// What a fault reset does: every channel back to the neutral zero,
    /// the flag untouched.
    pub open spec fn reset_spec(self) -> PowerEwma {
        PowerEwma {
            initialized: self.initialized,
            watts_bits: 0,
            volts_bits: 0,
            frequency_bits: 0,
        }
    }

    /// Apply one sample.
    ///
    /// The first sample ever seen is stored as it is — no smoothing on the
    /// seed. Afterwards each incoming sample is blended with history;
    /// `blended` must be the caller's per-channel blend
    /// `history * 0.8 + sample * 0.2`, a floating-point computation that
    /// lives outside the verified core. Which of the two is stored, and
    /// that the flag is set and stays set, is decided here.
    pub fn update_with(&mut self, sample: RawSample, blended: RawSample)
        ensures
            *final(self) == old(self).updated_spec(sample, blended),
            final(self).initialized,
            !old(self).initialized ==> final(self).channels() == sample,
            old(self).initialized ==> final(self).channels() == blended,
            old(self).wf() ==> final(self).wf(),
    {
        if !self.initialized {
            self.watts_bits = sample.watts_bits;
            self.volts_bits = sample.volts_bits;
            self.frequency_bits = sample.frequency_bits;
            self.initialized = true;
        } else {
            self.watts_bits = blended.watts_bits;
            self.volts_bits = blended.volts_bits;
            self.frequency_bits = blended.frequency_bits;
        }
    }

    /// Fault reset: every channel back to the neutral zero, the
    /// `initialized` flag left exactly as it was. After the first
    /// successful sample the flag therefore stays true even while the
    /// reading reports zeros — a snapshot taken right after a fault is
    /// indistinguishable, by the flag alone, from one taken after a real
    /// zero-power seed.
    pub fn reset(&mut self)
        ensures
            *final(self) == old(self).reset_spec(),
            final(self).channels() == RawSample::zero_spec(),
            final(self).initialized == old(self).initialized,
            final(self).wf(),
    {
        self.watts_bits = 0;
        self.volts_bits = 0;
        self.frequency_bits = 0;
    }

    /// The three channels as one sample, for a caller about to blend
    /// them with an incoming sample.
    pub fn channels_sample(&self) -> (r: RawSample)
        ensures
            r == self.channels(),
    {
        RawSample {
            watts_bits: self.watts_bits,
            volts_bits: self.volts_bits,
            frequency_bits: self.frequency_bits,
        }
    }
}

impl Default for PowerEwma {
    /// Same as [`PowerEwma::new`]: no sample yet, neutral channels.
    fn default() -> (r: PowerEwma)
        ensures
            r == PowerEwma::fresh_spec(),
    {
        PowerEwma::new()
    }
}

/// The seed rule: on a reading that has never seen a sample, one update
/// stores the incoming sample exactly, channel for channel — whatever
/// blend the caller supplied is ignored — and sets the flag.
pub proof fn lemma_seed_is_exact(r: PowerEwma, s: RawSample, b: RawSample)
    requires
        !r.initialized,
    ensures
        r.updated_spec(s, b).channels() == s,
        r.updated_spec(s, b).initialized,
{
}

/// The smoothing rule: once a sample has been seeded, an update stores
/// exactly the blend the caller computed, channel for channel — the
/// smoothing path replaces the whole triple at once, it never mixes an
/// old channel with a new one.
pub proof fn lemma_update_stores_blend(r: PowerEwma, s: RawSample, b: RawSample)
    requires
        r.initialized,
    ensures
        r.updated_spec(s, b).channels() == b,
        r.updated_spec(s, b).initialized,
{
}

/// The fault quirk: a reset zeroes the channels but never clears the
/// flag, so once a sample has been seeded the reading after a fault is
/// indistinguishable, by the flag alone, from one seeded with a genuine
/// all-zero sample.
pub proof fn lemma_fault_reset_quirk(r: PowerEwma, s: RawSample)
    requires
        r.initialized,
    ensures
        r.reset_spec().initialized,
        r.reset_spec().channels() == RawSample::zero_spec(),
        r.reset_spec() == PowerEwma::fresh_spec().updated_spec(RawSample::zero_spec(), s),
{
}

} // verus!
