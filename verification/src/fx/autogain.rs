//! Auto-gain stage: its controls and the sample count of its loudness window.
//!
//! The stage measures loudness over a window of fixed length. This module
//! counts the samples of the window and says when one is complete; the sums
//! and the gain belong to whoever computes the signal.

use vstd::prelude::*;
use crate::text::{check_range, range_refusal};
use crate::units::{duration_to_samples, samples_in, Milli};

verus! {

/// Lowest target level: -40 dB.
pub const MIN_TARGET: Milli = -40_000;

/// Highest target level: 0 dB.
pub const MAX_TARGET: Milli = 0;

/// Target level of a new stage: -18 dB.
pub const DEFAULT_TARGET: Milli = -18_000;

/// Shortest window: 100 ms.
pub const MIN_WINDOW: Milli = 100_000;

/// Longest window: 5000 ms.
pub const MAX_WINDOW: Milli = 5_000_000;

/// Window of a new stage: 1000 ms.
pub const DEFAULT_WINDOW: Milli = 1_000_000;

/// Shortest attack: 10 ms.
pub const MIN_ATTACK: Milli = 10_000;

/// Longest attack: 1000 ms.
pub const MAX_ATTACK: Milli = 1_000_000;

/// Attack of a new stage: 100 ms.
pub const DEFAULT_ATTACK: Milli = 100_000;

/// Shortest release: 100 ms.
pub const MIN_RELEASE: Milli = 100_000;

/// Longest release: 5000 ms.
pub const MAX_RELEASE: Milli = 5_000_000;

/// Release of a new stage: 500 ms.
pub const DEFAULT_RELEASE: Milli = 500_000;

/// What a target level is refused with, if it is.
pub open spec fn target_refusal(level_db: int) -> Option<Seq<char>> {
    range_refusal(
        level_db,
        MIN_TARGET as int,
        MAX_TARGET as int,
        "Target Level außerhalb des Bereichs: "@,
        " dB (erlaubt: -40 bis 0 dB)"@,
    )
}

/// What a window is refused with, if it is.
pub open spec fn window_refusal(window_ms: int) -> Option<Seq<char>> {
    range_refusal(
        window_ms,
        MIN_WINDOW as int,
        MAX_WINDOW as int,
        "Window außerhalb des Bereichs: "@,
        " ms (erlaubt: 100 bis 5000 ms)"@,
    )
}

/// What an attack is refused with, if it is.
pub open spec fn attack_refusal(attack_ms: int) -> Option<Seq<char>> {
    range_refusal(
        attack_ms,
        MIN_ATTACK as int,
        MAX_ATTACK as int,
        "Attack außerhalb des Bereichs: "@,
        " ms (erlaubt: 10 bis 1000 ms)"@,
    )
}

/// What a release is refused with, if it is.
pub open spec fn release_refusal(release_ms: int) -> Option<Seq<char>> {
    range_refusal(
        release_ms,
        MIN_RELEASE as int,
        MAX_RELEASE as int,
        "Release außerhalb des Bereichs: "@,
        " ms (erlaubt: 100 bis 5000 ms)"@,
    )
}

/// The count of a window of `window` samples after one more sample, and
/// whether that sample completed the window. A complete window starts over.
pub open spec fn counted(count: nat, window: nat) -> (nat, bool) {
    if count + 1 >= window {
        (0, true)
    } else {
        (count + 1, false)
    }
}

/// The count after `n` samples went into an empty window.
pub open spec fn count_after(n: nat, window: nat) -> nat
    decreases n,
{
    if n == 0 {
        0
    } else {
        counted(count_after((n - 1) as nat, window), window).0
    }
}

/// A window of `window` samples that started empty completes with every
/// `window`-th sample and with no other.
pub proof fn lemma_window_period(n: nat, window: nat)
    requires
        window > 0,
    ensures
        count_after(n, window) == n % window,
        counted(count_after(n, window), window).1 == ((n + 1) % window == 0),
    decreases n,
{
    if n > 0 {
        lemma_window_period((n - 1) as nat, window);
        lemma_next_residue((n - 1) as nat, window);
    } else {
        vstd::arithmetic::div_mod::lemma_small_mod(0, window);
    }
    lemma_next_residue(n, window);
}

/// The remainder of the successor: one more, or zero where that would reach
/// the divisor.
proof fn lemma_next_residue(n: nat, w: nat)
    requires
        w > 0,
    ensures
        (n + 1) % w == if n % w + 1 >= w {
            0
        } else {
            n % w + 1
        },
        n % w < w,
{
    let q = n / w;
    let r = n % w;
    vstd::arithmetic::div_mod::lemma_fundamental_div_mod(n as int, w as int);
    vstd::arithmetic::div_mod::lemma_mod_pos_bound(n as int, w as int);
    if r + 1 >= w {
        assert(n + 1 == w * (q + 1)) by (nonlinear_arith)
            requires
                n == w * q + r,
                r + 1 == w,
        ;
        vstd::arithmetic::div_mod::lemma_fundamental_div_mod_converse(
            (n + 1) as int,
            w as int,
            (q + 1) as int,
            0,
        );
    } else {
        vstd::arithmetic::div_mod::lemma_fundamental_div_mod_converse(
            (n + 1) as int,
            w as int,
            q as int,
            (r + 1) as int,
        );
    }
}

/// Controls and window count of the auto-gain stage.
#[derive(Debug, Clone, Copy, PartialEq, Eq, Structural)]
pub struct AutoGainModule {
    /// Target level in thousandths of a decibel.
    pub target_level_db: Milli,
    /// Window in thousandths of a millisecond.
    pub window_ms: Milli,
    /// Attack in thousandths of a millisecond.
    pub attack_ms: Milli,
    /// Release in thousandths of a millisecond.
    pub release_ms: Milli,
    /// Whether the stage is skipped.
    pub bypassed: bool,
    /// Samples per second.
    pub sample_rate: u32,
    /// Samples in the window that is being measured.
    pub rms_sample_count: u64,
    /// Samples in a full window.
    pub rms_window_samples: u64,
}

impl AutoGainModule {
    /// The controls lie in their ranges and the window in samples is that of
    /// the window time.
    pub open spec fn wf(&self) -> bool {
        &&& MIN_TARGET <= self.target_level_db <= MAX_TARGET
        &&& MIN_WINDOW <= self.window_ms <= MAX_WINDOW
        &&& MIN_ATTACK <= self.attack_ms <= MAX_ATTACK
        &&& MIN_RELEASE <= self.release_ms <= MAX_RELEASE
        &&& self.rms_window_samples == samples_in(self.window_ms as int, self.sample_rate as int)
        &&& self.rms_sample_count < u64::MAX
    }

    /// A stage that aims at -18 dB over a window of 1000 ms, with attack
    /// 100 ms and release 500 ms, not bypassed, with an empty window.
    pub open spec fn initial(sample_rate: u32) -> Self {
        AutoGainModule {
            target_level_db: DEFAULT_TARGET,
            window_ms: DEFAULT_WINDOW,
            attack_ms: DEFAULT_ATTACK,
            release_ms: DEFAULT_RELEASE,
            bypassed: false,
            sample_rate,
            rms_sample_count: 0,
            rms_window_samples: samples_in(DEFAULT_WINDOW as int, sample_rate as int) as u64,
        }
    }

    /// A stage that aims at -18 dB over a window of 1000 ms, with attack
    /// 100 ms and release 500 ms, not bypassed, with an empty window.
    pub fn new(sample_rate: u32) -> (r: Self)
        ensures
            r == Self::initial(sample_rate),
            r.wf(),
    {
        AutoGainModule {
            target_level_db: DEFAULT_TARGET,
            window_ms: DEFAULT_WINDOW,
            attack_ms: DEFAULT_ATTACK,
            release_ms: DEFAULT_RELEASE,
            bypassed: false,
            sample_rate,
            rms_sample_count: 0,
            rms_window_samples: duration_to_samples(DEFAULT_WINDOW, sample_rate),
        }
    }

    /// Sets the target level; one outside -40..0 dB is refused and changes
    /// nothing.
    pub fn set_target_level(&mut self, level_db: Milli) -> (r: Result<(), String>)
        ensures
            match target_refusal(level_db as int) {
                Some(msg) => r is Err && r->Err_0@ == msg && *final(self) == *old(self),
                None => r is Ok && *final(self) == (AutoGainModule {
                    target_level_db: level_db,
                    ..*old(self)
                }),
            },
            old(self).wf() ==> final(self).wf(),
    {
        match check_range(
            level_db,
            MIN_TARGET,
            MAX_TARGET,
            "Target Level außerhalb des Bereichs: ",
            " dB (erlaubt: -40 bis 0 dB)",
        ) {
            Err(e) => Err(e),
            Ok(_) => {
                self.target_level_db = level_db;
                Ok(())
            },
        }
    }

    /// Sets the window, and with it the window in samples; one outside
    /// 100..5000 ms is refused and changes nothing. The window that is being
    /// measured keeps its count.
    pub fn set_window(&mut self, window_ms: Milli) -> (r: Result<(), String>)
        ensures
            match window_refusal(window_ms as int) {
                Some(msg) => r is Err && r->Err_0@ == msg && *final(self) == *old(self),
                None => r is Ok && *final(self) == (AutoGainModule {
                    window_ms,
                    rms_window_samples: samples_in(
                        window_ms as int,
                        old(self).sample_rate as int,
                    ) as u64,
                    ..*old(self)
                }),
            },
            old(self).wf() ==> final(self).wf(),
    {
        match check_range(
            window_ms,
            MIN_WINDOW,
            MAX_WINDOW,
            "Window außerhalb des Bereichs: ",
            " ms (erlaubt: 100 bis 5000 ms)",
        ) {
            Err(e) => Err(e),
            Ok(_) => {
                self.window_ms = window_ms;
                self.rms_window_samples = duration_to_samples(window_ms, self.sample_rate);
                Ok(())
            },
        }
    }

    /// Sets the attack; one outside 10..1000 ms is refused and changes
    /// nothing.
    pub fn set_attack(&mut self, attack_ms: Milli) -> (r: Result<(), String>)
        ensures
            match attack_refusal(attack_ms as int) {
                Some(msg) => r is Err && r->Err_0@ == msg && *final(self) == *old(self),
                None => r is Ok && *final(self) == (AutoGainModule { attack_ms, ..*old(self) }),
            },
            old(self).wf() ==> final(self).wf(),
    {
        match check_range(
            attack_ms,
            MIN_ATTACK,
            MAX_ATTACK,
            "Attack außerhalb des Bereichs: ",
            " ms (erlaubt: 10 bis 1000 ms)",
        ) {
            Err(e) => Err(e),
            Ok(_) => {
                self.attack_ms = attack_ms;
                Ok(())
            },
        }
    }

    /// Sets the release; one outside 100..5000 ms is refused and changes
    /// nothing.
    pub fn set_release(&mut self, release_ms: Milli) -> (r: Result<(), String>)
        ensures
            match release_refusal(release_ms as int) {
                Some(msg) => r is Err && r->Err_0@ == msg && *final(self) == *old(self),
                None => r is Ok && *final(self) == (AutoGainModule { release_ms, ..*old(self) }),
            },
            old(self).wf() ==> final(self).wf(),
    {
        match check_range(
            release_ms,
            MIN_RELEASE,
            MAX_RELEASE,
            "Release außerhalb des Bereichs: ",
            " ms (erlaubt: 100 bis 5000 ms)",
        ) {
            Err(e) => Err(e),
            Ok(_) => {
                self.release_ms = release_ms;
                Ok(())
            },
        }
    }

    /// Counts one sample into the window. Answers whether the window is
    /// complete with it; a complete window starts over.
    pub fn count_sample(&mut self) -> (complete: bool)
        ensures
            old(self).wf() ==> final(self).wf(),
            (final(self).rms_sample_count as nat, complete) == counted(
                old(self).rms_sample_count as nat,
                old(self).rms_window_samples as nat,
            ),
            *final(self) == (AutoGainModule {
                rms_sample_count: final(self).rms_sample_count,
                ..*old(self)
            }),
    {
        if self.rms_window_samples == 0 || self.rms_sample_count >= self.rms_window_samples - 1 {
            self.rms_sample_count = 0;
            true
        } else {
            self.rms_sample_count = self.rms_sample_count + 1;
            false
        }
    }

    /// Switches the bypass.
    pub fn set_bypass(&mut self, bypass: bool)
        ensures
            *final(self) == (AutoGainModule { bypassed: bypass, ..*old(self) }),
    {
        self.bypassed = bypass;
    }

    /// Whether the stage is skipped.
    pub fn is_bypassed(&self) -> (r: bool)
        ensures
            r == self.bypassed,
    {
        self.bypassed
    }

    /// Starts the window over; the controls stay.
    pub fn reset(&mut self)
        ensures
            *final(self) == (AutoGainModule { rms_sample_count: 0, ..*old(self) }),
    {
        self.rms_sample_count = 0;
    }
}

} // verus!
