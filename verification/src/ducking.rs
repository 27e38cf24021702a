//! Sidechain ducking: its controls, and when it runs at all.

use vstd::prelude::*;
use crate::units::{clamp, clamped, Milli, SAMPLE_RATE};

verus! {

/// Strongest ducking: -30 dB.
pub const MIN_AMOUNT: Milli = -30_000;

/// Weakest ducking: none.
pub const MAX_AMOUNT: Milli = 0;

/// Shortest attack: 10 ms.
pub const MIN_ATTACK: Milli = 10_000;

/// Longest attack: 500 ms.
pub const MAX_ATTACK: Milli = 500_000;

/// Shortest release: 50 ms.
pub const MIN_RELEASE: Milli = 50_000;

/// Longest release: 2000 ms.
pub const MAX_RELEASE: Milli = 2_000_000;

/// Lowest threshold: -50 dB.
pub const MIN_THRESHOLD: Milli = -50_000;

/// Highest threshold: 0 dB.
pub const MAX_THRESHOLD: Milli = 0;

/// The controls of the ducking, in thousandths.
#[derive(Debug, Clone, Copy, PartialEq, Eq, Structural)]
pub struct DuckingParams {
    /// By how much the audio is lowered, in decibels: 0 is not at all.
    pub amount_db: Milli,
    /// Attack in milliseconds.
    pub attack_ms: Milli,
    /// Release in milliseconds.
    pub release_ms: Milli,
    /// The level of the sidechain from which on the audio is lowered, in
    /// decibels.
    pub threshold_db: Milli,
}

impl DuckingParams {
    /// The controls lie in their ranges.
    pub open spec fn wf(&self) -> bool {
        &&& MIN_AMOUNT <= self.amount_db <= MAX_AMOUNT
        &&& MIN_ATTACK <= self.attack_ms <= MAX_ATTACK
        &&& MIN_RELEASE <= self.release_ms <= MAX_RELEASE
        &&& MIN_THRESHOLD <= self.threshold_db <= MAX_THRESHOLD
    }

    /// Ducking by 15 dB above -30 dB, with attack 50 ms and release 500 ms.
    pub open spec fn initial() -> Self {
        DuckingParams {
            amount_db: (-15_000) as i32,
            attack_ms: 50_000,
            release_ms: 500_000,
            threshold_db: (-30_000) as i32,
        }
    }
}

/// Controls of the sidechain ducking.
#[derive(Debug, Clone, Copy, PartialEq, Eq, Structural)]
pub struct DuckingEngine {
    /// The controls.
    pub params: DuckingParams,
    /// Whether the ducking is on.
    pub enabled: bool,
    /// Samples per second.
    pub sample_rate: u32,
}

impl DuckingEngine {
    /// An engine with the controls as they are made, switched off.
    pub open spec fn initial() -> Self {
        DuckingEngine { params: DuckingParams::initial(), enabled: false, sample_rate: SAMPLE_RATE }
    }

    /// Whether a buffer is worked on: the ducking has to be on, and neither
    /// the audio nor the sidechain may be empty.
    pub open spec fn runs(&self, audio_len: int, sidechain_len: int) -> bool {
        self.enabled && audio_len > 0 && sidechain_len > 0
    }

    /// An engine with the controls as they are made, switched off.
    pub fn new() -> (r: Self)
        ensures
            r == Self::initial(),
            r.params.wf(),
    {
        DuckingEngine {
            params: DuckingParams {
                amount_db: -15_000,
                attack_ms: 50_000,
                release_ms: 500_000,
                threshold_db: -30_000,
            },
            enabled: false,
            sample_rate: SAMPLE_RATE,
        }
    }

    /// Sets the amount, limited to -30..0 dB.
    pub fn set_amount(&mut self, amount_db: Milli)
        ensures
            *final(self) == (DuckingEngine {
                params: DuckingParams {
                    amount_db: clamped(amount_db as int, MIN_AMOUNT as int, MAX_AMOUNT as int) as i32,
                    ..old(self).params
                },
                ..*old(self)
            }),
    {
        self.params.amount_db = clamp(amount_db, MIN_AMOUNT, MAX_AMOUNT);
    }

    /// Sets the attack, limited to 10..500 ms.
    pub fn set_attack(&mut self, attack_ms: Milli)
        ensures
            *final(self) == (DuckingEngine {
                params: DuckingParams {
                    attack_ms: clamped(attack_ms as int, MIN_ATTACK as int, MAX_ATTACK as int) as i32,
                    ..old(self).params
                },
                ..*old(self)
            }),
    {
        self.params.attack_ms = clamp(attack_ms, MIN_ATTACK, MAX_ATTACK);
    }

    /// Sets the release, limited to 50..2000 ms.
    pub fn set_release(&mut self, release_ms: Milli)
        ensures
            *final(self) == (DuckingEngine {
                params: DuckingParams {
                    release_ms: clamped(
                        release_ms as int,
                        MIN_RELEASE as int,
                        MAX_RELEASE as int,
                    ) as i32,
                    ..old(self).params
                },
                ..*old(self)
            }),
    {
        self.params.release_ms = clamp(release_ms, MIN_RELEASE, MAX_RELEASE);
    }

    /// Sets the threshold, limited to -50..0 dB.
    pub fn set_threshold(&mut self, threshold_db: Milli)
        ensures
            *final(self) == (DuckingEngine {
                params: DuckingParams {
                    threshold_db: clamped(
                        threshold_db as int,
                        MIN_THRESHOLD as int,
                        MAX_THRESHOLD as int,
                    ) as i32,
                    ..old(self).params
                },
                ..*old(self)
            }),
    {
        self.params.threshold_db = clamp(threshold_db, MIN_THRESHOLD, MAX_THRESHOLD);
    }

    /// Whether a buffer of `audio_len` samples is worked on with a sidechain
    /// of `sidechain_len` samples.
    pub fn should_process(&self, audio_len: usize, sidechain_len: usize) -> (r: bool)
        ensures
            r == self.runs(audio_len as int, sidechain_len as int),
    {
        self.enabled && audio_len > 0 && sidechain_len > 0
    }
}

} // verus!
