//! High-pass filter stage: its cutoff and bypass.

use vstd::prelude::*;
use crate::units::{clamp, clamped, Milli};

verus! {

/// Lowest cutoff: 20 Hz.
pub const MIN_FREQ: Milli = 20_000;

/// Highest cutoff: 300 Hz.
pub const MAX_FREQ: Milli = 300_000;

/// Cutoff of a new filter: 80 Hz.
pub const DEFAULT_FREQ: Milli = 80_000;

/// Controls of the high-pass filter.
#[derive(Debug, Clone, Copy, PartialEq, Eq, Structural)]
pub struct HpfModule {
    /// Cutoff in thousandths of a hertz.
    pub freq: Milli,
    /// Whether the stage is skipped.
    pub bypassed: bool,
}

impl HpfModule {
    /// The cutoff lies in its range.
    pub open spec fn wf(&self) -> bool {
        MIN_FREQ <= self.freq <= MAX_FREQ
    }

    /// A filter at 80 Hz, not bypassed.
    pub open spec fn initial() -> Self {
        HpfModule { freq: DEFAULT_FREQ, bypassed: false }
    }

    /// A filter at 80 Hz, not bypassed.
    pub fn new() -> (r: Self)
        ensures
            r == Self::initial(),
            r.wf(),
    {
        HpfModule { freq: DEFAULT_FREQ, bypassed: false }
    }

    /// Sets the cutoff, limited to 20..300 Hz.
    pub fn set_freq(&mut self, freq: Milli)
        ensures
            final(self).freq == clamped(freq as int, MIN_FREQ as int, MAX_FREQ as int),
            final(self).bypassed == old(self).bypassed,
            final(self).wf(),
    {
        self.freq = clamp(freq, MIN_FREQ, MAX_FREQ);
    }

    /// The cutoff in thousandths of a hertz.
    pub fn get_freq(&self) -> (r: Milli)
        ensures
            r == self.freq,
    {
        self.freq
    }

    /// Switches the bypass.
    pub fn set_bypass(&mut self, bypass: bool)
        ensures
            *final(self) == (HpfModule { bypassed: bypass, ..*old(self) }),
    {
        self.bypassed = bypass;
    }

    /// Whether the stage is skipped.
    pub fn is_bypassed(&self) -> (r: bool)
        ensures
            r == self.bypassed,
    {
        self.bypassed
    }
}

} // verus!
