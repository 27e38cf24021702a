//! Noise gate stage: its controls and its five-state machine.
//!
//! The machine is stepped once per sample. Whoever computes the signal tells
//! it whether the level lies above the threshold and whether the envelope has
//! arrived at the end of its move; the machine says which way the envelope
//! moves and keeps the state and the hold counter.

use vstd::prelude::*;
use crate::units::{clamp, clamped, duration_to_samples, samples_in, Milli, SAMPLE_RATE};

verus! {

/// Lowest threshold: -60 dB.
pub const MIN_THRESHOLD: Milli = -60_000;

/// Highest threshold: 0 dB.
pub const MAX_THRESHOLD: Milli = 0;

/// Threshold of a new gate: -40 dB.
pub const DEFAULT_THRESHOLD: Milli = -40_000;

/// Shortest attack: 0.1 ms.
pub const MIN_ATTACK: Milli = 100;

/// Longest attack: 50 ms.
pub const MAX_ATTACK: Milli = 50_000;

/// Attack of a new gate: 5 ms.
pub const DEFAULT_ATTACK: Milli = 5_000;

/// Shortest hold: none.
pub const MIN_HOLD: Milli = 0;

/// Longest hold: 500 ms.
pub const MAX_HOLD: Milli = 500_000;

/// Hold of a new gate: 50 ms.
pub const DEFAULT_HOLD: Milli = 50_000;

/// Shortest release: 5 ms.
pub const MIN_RELEASE: Milli = 5_000;

/// Longest release: 500 ms.
pub const MAX_RELEASE: Milli = 500_000;

/// Release of a new gate: 100 ms.
pub const DEFAULT_RELEASE: Milli = 100_000;

/// Where the noise gate stands.
#[derive(Debug, Clone, Copy, PartialEq, Eq, Structural)]
pub enum GateState {
    /// Shut: the envelope rests at 0.
    Closed,
    /// Opening: the envelope rises.
    Attack,
    /// Open: the envelope rests at 1.
    Open,
    /// Open, while the level is below the threshold and the hold runs.
    Hold,
    /// Shutting: the envelope falls.
    Release,
}

/// What the envelope does during one sample.
#[derive(Debug, Clone, Copy, PartialEq, Eq, Structural)]
pub enum EnvelopeMove {
    /// It keeps its value.
    Still,
    /// It rises towards 1.
    Rise,
    /// It falls towards 0.
    Fall,
}

/// The move of the envelope for one sample: it rises during the attack and
/// falls during a release that the level does not interrupt.
pub open spec fn envelope_move(state: GateState, above: bool) -> EnvelopeMove {
    match state {
        GateState::Attack => EnvelopeMove::Rise,
        GateState::Release => if above {
            EnvelopeMove::Still
        } else {
            EnvelopeMove::Fall
        },
        _ => EnvelopeMove::Still,
    }
}

/// One step of the machine: the state and the hold counter after a sample.
/// `above` says that the level was above the threshold, `arrived` that the
/// envelope, after its move, reached the end it was moving to.
pub open spec fn gate_step(
    state: GateState,
    counter: nat,
    hold_samples: nat,
    above: bool,
    arrived: bool,
) -> (GateState, nat) {
    match state {
        GateState::Closed => if above {
            (GateState::Attack, counter)
        } else {
            (GateState::Closed, counter)
        },
        GateState::Attack => if arrived {
            (GateState::Open, counter)
        } else {
            (GateState::Attack, counter)
        },
        GateState::Open => if above {
            (GateState::Open, counter)
        } else {
            (GateState::Hold, hold_samples)
        },
        GateState::Hold => if above {
            (GateState::Open, counter)
        } else if counter > 0 {
            (GateState::Hold, (counter - 1) as nat)
        } else {
            (GateState::Release, counter)
        },
        GateState::Release => if above {
            (GateState::Attack, counter)
        } else if arrived {
            (GateState::Closed, counter)
        } else {
            (GateState::Release, counter)
        },
    }
}

/// Controls and state of the noise gate.
#[derive(Debug, Clone, Copy, PartialEq, Eq, Structural)]
pub struct GateModule {
    /// Threshold in thousandths of a decibel.
    pub threshold_db: Milli,
    /// Attack in thousandths of a millisecond.
    pub attack_ms: Milli,
    /// Hold in thousandths of a millisecond.
    pub hold_ms: Milli,
    /// Release in thousandths of a millisecond.
    pub release_ms: Milli,
    /// Whether the stage is skipped.
    pub bypassed: bool,
    /// Where the noise gate stands.
    pub state: GateState,
    /// The hold, in samples.
    pub hold_samples: u64,
    /// Samples of hold that are left.
    pub hold_counter: u64,
}

impl GateModule {
    /// The controls lie in their ranges and the hold in samples is that of
    /// the hold time.
    pub open spec fn wf(&self) -> bool {
        &&& MIN_THRESHOLD <= self.threshold_db <= MAX_THRESHOLD
        &&& MIN_ATTACK <= self.attack_ms <= MAX_ATTACK
        &&& MIN_HOLD <= self.hold_ms <= MAX_HOLD
        &&& MIN_RELEASE <= self.release_ms <= MAX_RELEASE
        &&& self.hold_samples == samples_in(self.hold_ms as int, SAMPLE_RATE as int)
    }

    /// A closed gate at -40 dB with attack 5 ms, hold 50 ms (2400 samples)
    /// and release 100 ms, not bypassed.
    pub open spec fn initial() -> Self {
        GateModule {
            threshold_db: DEFAULT_THRESHOLD,
            attack_ms: DEFAULT_ATTACK,
            hold_ms: DEFAULT_HOLD,
            release_ms: DEFAULT_RELEASE,
            bypassed: false,
            state: GateState::Closed,
            hold_samples: 2400,
            hold_counter: 0,
        }
    }

    /// A closed gate at -40 dB with attack 5 ms, hold 50 ms and release
    /// 100 ms, not bypassed.
    pub fn new() -> (r: Self)
        ensures
            r == Self::initial(),
            r.wf(),
    {
        GateModule {
            threshold_db: DEFAULT_THRESHOLD,
            attack_ms: DEFAULT_ATTACK,
            hold_ms: DEFAULT_HOLD,
            release_ms: DEFAULT_RELEASE,
            bypassed: false,
            state: GateState::Closed,
            hold_samples: duration_to_samples(DEFAULT_HOLD, SAMPLE_RATE),
            hold_counter: 0,
        }
    }

    /// Sets the threshold, limited to -60..0 dB.
    pub fn set_threshold(&mut self, threshold_db: Milli)
        ensures
            *final(self) == (GateModule {
                threshold_db: clamped(
                    threshold_db as int,
                    MIN_THRESHOLD as int,
                    MAX_THRESHOLD as int,
                ) as i32,
                ..*old(self)
            }),
            old(self).wf() ==> final(self).wf(),
    {
        self.threshold_db = clamp(threshold_db, MIN_THRESHOLD, MAX_THRESHOLD);
    }

    /// The threshold in thousandths of a decibel.
    pub fn get_threshold(&self) -> (r: Milli)
        ensures
            r == self.threshold_db,
    {
        self.threshold_db
    }

    /// Sets the attack, limited to 0.1..50 ms.
    pub fn set_attack(&mut self, attack_ms: Milli)
        ensures
            *final(self) == (GateModule {
                attack_ms: clamped(attack_ms as int, MIN_ATTACK as int, MAX_ATTACK as int) as i32,
                ..*old(self)
            }),
            old(self).wf() ==> final(self).wf(),
    {
        self.attack_ms = clamp(attack_ms, MIN_ATTACK, MAX_ATTACK);
    }

    /// The attack in thousandths of a millisecond.
    pub fn get_attack(&self) -> (r: Milli)
        ensures
            r == self.attack_ms,
    {
        self.attack_ms
    }

    /// Sets the hold, limited to 0..500 ms, and with it the hold in samples.
    /// A hold that is running keeps its counter.
    pub fn set_hold(&mut self, hold_ms: Milli)
        ensures
            final(self).hold_ms == clamped(hold_ms as int, MIN_HOLD as int, MAX_HOLD as int),
            final(self).hold_samples == samples_in(
                final(self).hold_ms as int,
                SAMPLE_RATE as int,
            ),
            *final(self) == (GateModule {
                hold_ms: final(self).hold_ms,
                hold_samples: final(self).hold_samples,
                ..*old(self)
            }),
            old(self).wf() ==> final(self).wf(),
    {
        self.hold_ms = clamp(hold_ms, MIN_HOLD, MAX_HOLD);
        self.hold_samples = duration_to_samples(self.hold_ms, SAMPLE_RATE);
    }

    /// The hold in thousandths of a millisecond.
    pub fn get_hold(&self) -> (r: Milli)
        ensures
            r == self.hold_ms,
    {
        self.hold_ms
    }

    /// Sets the release, limited to 5..500 ms.
    pub fn set_release(&mut self, release_ms: Milli)
        ensures
            *final(self) == (GateModule {
                release_ms: clamped(
                    release_ms as int,
                    MIN_RELEASE as int,
                    MAX_RELEASE as int,
                ) as i32,
                ..*old(self)
            }),
            old(self).wf() ==> final(self).wf(),
    {
        self.release_ms = clamp(release_ms, MIN_RELEASE, MAX_RELEASE);
    }

    /// The release in thousandths of a millisecond.
    pub fn get_release(&self) -> (r: Milli)
        ensures
            r == self.release_ms,
    {
        self.release_ms
    }

    /// Which way the envelope moves during the sample that comes next.
    pub fn next_move(&self, above: bool) -> (r: EnvelopeMove)
        ensures
            r == envelope_move(self.state, above),
    {
        match self.state {
            GateState::Attack => EnvelopeMove::Rise,
            GateState::Release => if above {
                EnvelopeMove::Still
            } else {
                EnvelopeMove::Fall
            },
            _ => EnvelopeMove::Still,
        }
    }

    /// Steps the machine by one sample.
    pub fn update_state(&mut self, above: bool, arrived: bool)
        ensures
            (final(self).state, final(self).hold_counter as nat) == gate_step(
                old(self).state,
                old(self).hold_counter as nat,
                old(self).hold_samples as nat,
                above,
                arrived,
            ),
            *final(self) == (GateModule {
                state: final(self).state,
                hold_counter: final(self).hold_counter,
                ..*old(self)
            }),
    {
        match self.state {
            GateState::Closed => {
                if above {
                    self.state = GateState::Attack;
                }
            },
            GateState::Attack => {
                if arrived {
                    self.state = GateState::Open;
                }
            },
            GateState::Open => {
                if !above {
                    self.state = GateState::Hold;
                    self.hold_counter = self.hold_samples;
                }
            },
            GateState::Hold => {
                if above {
                    self.state = GateState::Open;
                } else if self.hold_counter > 0 {
                    self.hold_counter -= 1;
                } else {
                    self.state = GateState::Release;
                }
            },
            GateState::Release => {
                if above {
                    self.state = GateState::Attack;
                } else if arrived {
                    self.state = GateState::Closed;
                }
            },
        }
    }

    /// Switches the bypass.
    pub fn set_bypass(&mut self, bypass: bool)
        ensures
            *final(self) == (GateModule { bypassed: bypass, ..*old(self) }),
    {
        self.bypassed = bypass;
    }

    /// Whether the stage is skipped.
    pub fn is_bypassed(&self) -> (r: bool)
        ensures
            r == self.bypassed,
    {
        self.bypassed
    }

    /// Shuts the noise gate and clears the hold counter; the controls stay.
    pub fn reset(&mut self)
        ensures
            *final(self) == (GateModule {
                state: GateState::Closed,
                hold_counter: 0,
                ..*old(self)
            }),
    {
        self.state = GateState::Closed;
        self.hold_counter = 0;
    }
}

/// The state after the machine was stepped once for each of `above`, with an
/// envelope that never arrives.
pub open spec fn gate_run(
    state: GateState,
    counter: nat,
    hold_samples: nat,
    above: Seq<bool>,
) -> (GateState, nat)
    decreases above.len(),
{
    if above.len() == 0 {
        (state, counter)
    } else {
        let before = gate_run(state, counter, hold_samples, above.drop_last());
        gate_step(before.0, before.1, hold_samples, above.last(), false)
    }
}

/// A closed gate stays closed for as long as the level stays at or below the
/// threshold.
pub proof fn lemma_quiet_input_keeps_gate_closed(
    counter: nat,
    hold_samples: nat,
    above: Seq<bool>,
)
    requires
        forall|i: int| 0 <= i < above.len() ==> !above[i],
    ensures
        gate_run(GateState::Closed, counter, hold_samples, above) == (GateState::Closed, counter),
    decreases above.len(),
{
    if above.len() > 0 {
        lemma_quiet_input_keeps_gate_closed(counter, hold_samples, above.drop_last());
    }
}

/// While the level stays above the threshold, the noise gate is opening or
/// open after every sample, whatever it was before; once open it stays
/// open, and its envelope rests.
pub proof fn lemma_loud_input_opens(
    state: GateState,
    counter: nat,
    hold_samples: nat,
    arrived: bool,
)
    ensures
        gate_step(state, counter, hold_samples, true, arrived).0 == GateState::Attack || gate_step(
            state,
            counter,
            hold_samples,
            true,
            arrived,
        ).0 == GateState::Open,
        gate_step(GateState::Open, counter, hold_samples, true, arrived) == (
            GateState::Open,
            counter,
        ),
        envelope_move(GateState::Open, true) == EnvelopeMove::Still,
{
}

} // verus!
