//! De-esser stage: a magnitude threshold above which samples are reduced.

use vstd::prelude::*;
use crate::text::{check_range, range_refusal};
use crate::units::Milli;

verus! {

/// Lowest threshold: -40 dB.
pub const MIN_THRESHOLD: Milli = -40_000;

/// Highest threshold: 0 dB.
pub const MAX_THRESHOLD: Milli = 0;

/// Threshold of a new de-esser: -20 dB.
pub const DEFAULT_THRESHOLD: Milli = -20_000;

/// Centre frequency of a new de-esser: 7 kHz.
pub const DEFAULT_FREQ: Milli = 7_000_000;

/// Ratio of a new de-esser: 4 to 1.
pub const DEFAULT_RATIO: Milli = 4_000;

/// Controls of the de-esser.
#[derive(Debug, Clone, Copy, PartialEq, Eq, Structural)]
pub struct DeEsserModule {
    /// Centre frequency in thousandths of a hertz.
    pub freq_hz: Milli,
    /// Threshold in thousandths of a decibel.
    pub threshold_db: Milli,
    /// Reduction ratio in thousandths.
    pub ratio: Milli,
    /// Whether the stage is skipped.
    pub bypassed: bool,
}

/// What a threshold is refused with, if it is.
pub open spec fn threshold_refusal(threshold_db: int) -> Option<Seq<char>> {
    range_refusal(
        threshold_db,
        MIN_THRESHOLD as int,
        MAX_THRESHOLD as int,
        "Threshold außerhalb: "@,
        " dB"@,
    )
}

impl DeEsserModule {
    /// The threshold lies in its range.
    pub open spec fn wf(&self) -> bool {
        MIN_THRESHOLD <= self.threshold_db <= MAX_THRESHOLD
    }

    /// A de-esser at 7 kHz and -20 dB with ratio 4, not bypassed.
    pub open spec fn initial() -> Self {
        DeEsserModule {
            freq_hz: DEFAULT_FREQ,
            threshold_db: DEFAULT_THRESHOLD,
            ratio: DEFAULT_RATIO,
            bypassed: false,
        }
    }

    /// A de-esser at 7 kHz and -20 dB with ratio 4, not bypassed.
    pub fn new(_sample_rate: u32) -> (r: Self)
        ensures
            r == Self::initial(),
            r.wf(),
    {
        DeEsserModule {
            freq_hz: DEFAULT_FREQ,
            threshold_db: DEFAULT_THRESHOLD,
            ratio: DEFAULT_RATIO,
            bypassed: false,
        }
    }

    /// Sets the threshold; one outside -40..0 dB is refused and changes
    /// nothing.
    pub fn set_threshold(&mut self, threshold_db: Milli) -> (r: Result<(), String>)
        ensures
            match threshold_refusal(threshold_db as int) {
                Some(msg) => r is Err && r->Err_0@ == msg && *final(self) == *old(self),
                None => r is Ok && *final(self) == (DeEsserModule { threshold_db, ..*old(self) })
                    && final(self).wf(),
            },
    {
        match check_range(
            threshold_db,
            MIN_THRESHOLD,
            MAX_THRESHOLD,
            "Threshold außerhalb: ",
            " dB",
        ) {
            Err(e) => Err(e),
            Ok(_) => {
                self.threshold_db = threshold_db;
                Ok(())
            },
        }
    }

    /// Switches the bypass.
    pub fn set_bypass(&mut self, bypass: bool)
        ensures
            *final(self) == (DeEsserModule { bypassed: bypass, ..*old(self) }),
    {
        self.bypassed = bypass;
    }

    /// Whether the stage is skipped.
    pub fn is_bypassed(&self) -> (r: bool)
        ensures
            r == self.bypassed,
    {
        self.bypassed
    }
}

} // verus!
