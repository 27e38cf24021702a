//! Denoiser stage: a magnitude threshold below which samples are attenuated.

use vstd::prelude::*;
use crate::text::{check_range, range_refusal};
use crate::units::Milli;

verus! {

/// Lowest threshold: -60 dB.
pub const MIN_THRESHOLD: Milli = -60_000;

/// Highest threshold: -10 dB.
pub const MAX_THRESHOLD: Milli = -10_000;

/// Threshold of a new denoiser: -40 dB.
pub const DEFAULT_THRESHOLD: Milli = -40_000;

/// Attenuation below the threshold: 20 dB.
pub const DEFAULT_REDUCTION: Milli = 20_000;

/// Controls of the denoiser.
#[derive(Debug, Clone, Copy, PartialEq, Eq, Structural)]
pub struct DenoiseModule {
    /// Threshold in thousandths of a decibel.
    pub threshold_db: Milli,
    /// Attenuation below the threshold, in thousandths of a decibel.
    pub reduction_db: Milli,
    /// Whether the stage is skipped.
    pub bypassed: bool,
}

/// What a threshold is refused with, if it is.
pub open spec fn threshold_refusal(threshold_db: int) -> Option<Seq<char>> {
    range_refusal(
        threshold_db,
        MIN_THRESHOLD as int,
        MAX_THRESHOLD as int,
        "Threshold außerhalb: "@,
        " dB"@,
    )
}

impl DenoiseModule {
    /// The threshold lies in its range.
    pub open spec fn wf(&self) -> bool {
        MIN_THRESHOLD <= self.threshold_db <= MAX_THRESHOLD
    }

    /// A denoiser at -40 dB that attenuates by 20 dB, not bypassed.
    pub open spec fn initial() -> Self {
        DenoiseModule {
            threshold_db: DEFAULT_THRESHOLD,
            reduction_db: DEFAULT_REDUCTION,
            bypassed: false,
        }
    }

    /// A denoiser at -40 dB that attenuates by 20 dB, not bypassed.
    pub fn new(_sample_rate: u32) -> (r: Self)
        ensures
            r == Self::initial(),
            r.wf(),
    {
        DenoiseModule {
            threshold_db: DEFAULT_THRESHOLD,
            reduction_db: DEFAULT_REDUCTION,
            bypassed: false,
        }
    }

    /// Sets the threshold; one outside -60..-10 dB is refused and changes
    /// nothing.
    pub fn set_threshold(&mut self, threshold_db: Milli) -> (r: Result<(), String>)
        ensures
            match threshold_refusal(threshold_db as int) {
                Some(msg) => r is Err && r->Err_0@ == msg && *final(self) == *old(self),
                None => r is Ok && *final(self) == (DenoiseModule { threshold_db, ..*old(self) })
                    && final(self).wf(),
            },
    {
        match check_range(
            threshold_db,
            MIN_THRESHOLD,
            MAX_THRESHOLD,
            "Threshold außerhalb: ",
            " dB",
        ) {
            Err(e) => Err(e),
            Ok(_) => {
                self.threshold_db = threshold_db;
                Ok(())
            },
        }
    }

    /// Switches the bypass.
    pub fn set_bypass(&mut self, bypass: bool)
        ensures
            *final(self) == (DenoiseModule { bypassed: bypass, ..*old(self) }),
    {
        self.bypassed = bypass;
    }

    /// Whether the stage is skipped.
    pub fn is_bypassed(&self) -> (r: bool)
        ensures
            r == self.bypassed,
    {
        self.bypassed
    }
}

} // verus!
