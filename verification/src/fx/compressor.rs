//! Compressor stage: threshold, ratio and the envelope's time constants.

use vstd::prelude::*;
use crate::text::{check_range, range_refusal};
use crate::units::Milli;

verus! {

/// Lowest threshold: -60 dB.
pub const MIN_THRESHOLD: Milli = -60_000;

/// Highest threshold: 0 dB.
pub const MAX_THRESHOLD: Milli = 0;

/// Threshold of a new compressor: -20 dB.
pub const DEFAULT_THRESHOLD: Milli = -20_000;

/// Ratio of a new compressor: 4 to 1.
pub const DEFAULT_RATIO: Milli = 4_000;

/// Attack of a new compressor: 5 ms.
pub const DEFAULT_ATTACK: Milli = 5_000;

/// Release of a new compressor: 100 ms.
pub const DEFAULT_RELEASE: Milli = 100_000;

/// Controls of the compressor.
#[derive(Debug, Clone, Copy, PartialEq, Eq, Structural)]
pub struct CompressorModule {
    /// Threshold in thousandths of a decibel.
    pub threshold_db: Milli,
    /// Ratio in thousandths.
    pub ratio: Milli,
    /// Attack in thousandths of a millisecond.
    pub attack_ms: Milli,
    /// Release in thousandths of a millisecond.
    pub release_ms: Milli,
    /// Whether the stage is skipped.
    pub bypassed: bool,
    /// Samples per second.
    pub sample_rate: u32,
}

/// What a threshold is refused with, if it is.
pub open spec fn threshold_refusal(threshold_db: int) -> Option<Seq<char>> {
    range_refusal(
        threshold_db,
        MIN_THRESHOLD as int,
        MAX_THRESHOLD as int,
        "Threshold außerhalb: "@,
        " dB"@,
    )
}

impl CompressorModule {
    /// The threshold lies in its range, and the ratio is at least 1.
    pub open spec fn wf(&self) -> bool {
        &&& MIN_THRESHOLD <= self.threshold_db <= MAX_THRESHOLD
        &&& self.ratio >= 1_000
        &&& self.attack_ms > 0
        &&& self.release_ms > 0
    }

    /// A compressor at -20 dB with ratio 4, attack 5 ms and release 100 ms,
    /// not bypassed.
    pub open spec fn initial(sample_rate: u32) -> Self {
        CompressorModule {
            threshold_db: DEFAULT_THRESHOLD,
            ratio: DEFAULT_RATIO,
            attack_ms: DEFAULT_ATTACK,
            release_ms: DEFAULT_RELEASE,
            bypassed: false,
            sample_rate,
        }
    }

    /// A compressor at -20 dB with ratio 4, attack 5 ms and release 100 ms,
    /// not bypassed.
    pub fn new(sample_rate: u32) -> (r: Self)
        ensures
            r == Self::initial(sample_rate),
            r.wf(),
    {
        CompressorModule {
            threshold_db: DEFAULT_THRESHOLD,
            ratio: DEFAULT_RATIO,
            attack_ms: DEFAULT_ATTACK,
            release_ms: DEFAULT_RELEASE,
            bypassed: false,
            sample_rate,
        }
    }

    /// Sets the threshold; one outside -60..0 dB is refused and changes
    /// nothing.
    pub fn set_threshold(&mut self, threshold_db: Milli) -> (r: Result<(), String>)
        ensures
            match threshold_refusal(threshold_db as int) {
                Some(msg) => r is Err && r->Err_0@ == msg && *final(self) == *old(self),
                None => r is Ok && *final(self) == (CompressorModule { threshold_db, ..*old(self) }),
            },
            old(self).wf() ==> final(self).wf(),
    {
        match check_range(
            threshold_db,
            MIN_THRESHOLD,
            MAX_THRESHOLD,
            "Threshold außerhalb: ",
            " dB",
        ) {
            Err(e) => Err(e),
            Ok(_) => {
                self.threshold_db = threshold_db;
                Ok(())
            },
        }
    }

    /// Switches the bypass.
    pub fn set_bypass(&mut self, bypass: bool)
        ensures
            *final(self) == (CompressorModule { bypassed: bypass, ..*old(self) }),
    {
        self.bypassed = bypass;
    }

    /// Whether the stage is skipped.
    pub fn is_bypassed(&self) -> (r: bool)
        ensures
            r == self.bypassed,
    {
        self.bypassed
    }
}

} // verus!
