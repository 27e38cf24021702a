//! Quick calibration of a microphone: the settings that are recommended.

use vstd::prelude::*;
use crate::units::Milli;

verus! {

/// What a calibration recommends, in thousandths.
#[derive(Debug, Clone, Copy, PartialEq, Eq, Structural)]
pub struct CalibrationResult {
    /// Gain in decibels.
    pub recommended_gain_db: Milli,
    /// The noise floor that was found, in decibels.
    pub noise_floor_db: Milli,
    /// Threshold of the noise gate in decibels.
    pub recommended_gate_db: Milli,
    /// Cutoff of the high-pass filter in hertz.
    pub recommended_hpf_hz: Milli,
}

/// How far above the noise floor the noise gate is set: 6 dB.
pub const GATE_MARGIN_DB: Milli = 6_000;

/// The recommendation for a quiet room: no gain, a noise floor of -60 dB, the
/// noise gate 6 dB above it, the high-pass filter at 80 Hz.
pub open spec fn quiet_room() -> CalibrationResult {
    CalibrationResult {
        recommended_gain_db: 0,
        noise_floor_db: (-60_000) as i32,
        recommended_gate_db: (-60_000 + GATE_MARGIN_DB) as i32,
        recommended_hpf_hz: 80_000,
    }
}

/// Measures room and microphone.
#[derive(Debug)]
pub struct CalibrateEngine {}

impl CalibrateEngine {
    /// A new engine.
    pub fn new() -> (r: Self)
        ensures
            r == (CalibrateEngine {  }),
    {
        CalibrateEngine {  }
    }

    /// Recommends settings after `sample_count` samples were heard. The
    /// recommendation is that for a quiet room, whatever was heard.
    pub fn run_calibration(&mut self, sample_count: usize) -> (r: Result<
        CalibrationResult,
        String,
    >)
        ensures
            r == Ok::<CalibrationResult, String>(quiet_room()),
    {
        let floor: Milli = -60_000;
        Ok(
            CalibrationResult {
                recommended_gain_db: 0,
                noise_floor_db: floor,
                recommended_gate_db: floor + GATE_MARGIN_DB,
                recommended_hpf_hz: 80_000,
            },
        )
    }
}

} // verus!
