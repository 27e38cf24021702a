//! Censoring: what replaces a stretch of audio, and where.
//!
//! The engine never looks into a sample. It silences a stretch or turns it
//! around itself; where a tone or noise is wanted it says so, and the caller
//! writes it.

use vstd::prelude::*;
use crate::units::{clamp, clamped, Milli};

verus! {

/// Lowest tone: 200 Hz.
pub const MIN_TONE: Milli = 200_000;

/// Highest tone: 2000 Hz.
pub const MAX_TONE: Milli = 2_000_000;

/// Tone of a new engine: 1000 Hz.
pub const DEFAULT_TONE: Milli = 1_000_000;

/// Lowest volume: -30 dB.
pub const MIN_VOLUME: Milli = -30_000;

/// Highest volume: 0 dB.
pub const MAX_VOLUME: Milli = 0;

/// Volume of a new engine: -6 dB.
pub const DEFAULT_VOLUME: Milli = -6_000;

/// What a censored stretch of audio is replaced with.
#[derive(Debug, Clone, Copy, PartialEq, Eq, Structural)]
pub enum BleepMode {
    /// A tone.
    Beep,
    /// Silence.
    Mute,
    /// Noise.
    Noise,
    /// The stretch itself, backwards.
    Reverse,
    /// A sound of the user's; silence while none is at hand.
    Custom,
}

/// Controls of the censor.
#[derive(Debug, Clone, Copy, PartialEq, Eq, Structural)]
pub struct BleeperEngine {
    /// What replaces a stretch.
    pub mode: BleepMode,
    /// The tone in thousandths of a hertz, 200..2000 Hz.
    pub tone_hz: Milli,
    /// The volume of tone and noise in thousandths of a decibel, -30..0 dB.
    pub volume_db: Milli,
    /// Whether the censor acts at all.
    pub armed: bool,
}

/// A buffer with the stretch from `start` to `end` silenced.
pub open spec fn silenced<T>(s: Seq<T>, start: int, end: int, silence: T) -> Seq<T> {
    Seq::new(
        s.len(),
        |i: int|
            if start <= i < end {
                silence
            } else {
                s[i]
            },
    )
}

/// A buffer with the stretch from `start` to `end` turned around.
pub open spec fn turned<T>(s: Seq<T>, start: int, end: int) -> Seq<T> {
    Seq::new(
        s.len(),
        |i: int|
            if start <= i < end {
                s[start + end - 1 - i]
            } else {
                s[i]
            },
    )
}

impl BleeperEngine {
    /// Tone and volume lie in their ranges.
    pub open spec fn wf(&self) -> bool {
        &&& MIN_TONE <= self.tone_hz <= MAX_TONE
        &&& MIN_VOLUME <= self.volume_db <= MAX_VOLUME
    }

    /// A censor that beeps at 1000 Hz and -6 dB, not armed.
    pub open spec fn initial() -> Self {
        BleeperEngine {
            mode: BleepMode::Beep,
            tone_hz: DEFAULT_TONE,
            volume_db: DEFAULT_VOLUME,
            armed: false,
        }
    }

    /// Whether the censor acts on the stretch from `start` to `end` of a
    /// buffer of `len` samples: it has to be armed, and the stretch has to be
    /// non-empty and inside the buffer.
    pub open spec fn acts(&self, len: int, start: int, end: int) -> bool {
        self.armed && start < end && end <= len
    }

    /// The buffer after the censor has done what it does itself: silence, for
    /// the modes `Mute` and `Custom`, and turning around, for `Reverse`.
    pub open spec fn censored<T>(&self, s: Seq<T>, start: int, end: int, silence: T) -> Seq<T> {
        if !self.acts(s.len() as int, start, end) {
            s
        } else {
            match self.mode {
                BleepMode::Mute | BleepMode::Custom => silenced(s, start, end, silence),
                BleepMode::Reverse => turned(s, start, end),
                BleepMode::Beep | BleepMode::Noise => s,
            }
        }
    }

    /// What is left for the caller to write into the stretch: a tone or
    /// noise, or nothing.
    pub open spec fn wanted(&self, len: int, start: int, end: int) -> Option<BleepMode> {
        if self.acts(len, start, end) && (self.mode == BleepMode::Beep || self.mode
            == BleepMode::Noise) {
            Some(self.mode)
        } else {
            None
        }
    }

    /// A censor that beeps at 1000 Hz and -6 dB, not armed.
    pub fn new() -> (r: Self)
        ensures
            r == Self::initial(),
            r.wf(),
    {
        BleeperEngine {
            mode: BleepMode::Beep,
            tone_hz: DEFAULT_TONE,
            volume_db: DEFAULT_VOLUME,
            armed: false,
        }
    }

    /// Chooses what replaces a stretch.
    pub fn set_mode(&mut self, mode: BleepMode)
        ensures
            *final(self) == (BleeperEngine { mode, ..*old(self) }),
    {
        self.mode = mode;
    }

    /// Sets the tone, limited to 200..2000 Hz.
    pub fn set_tone(&mut self, tone_hz: Milli)
        ensures
            *final(self) == (BleeperEngine {
                tone_hz: clamped(tone_hz as int, MIN_TONE as int, MAX_TONE as int) as i32,
                ..*old(self)
            }),
            old(self).wf() ==> final(self).wf(),
    {
        self.tone_hz = clamp(tone_hz, MIN_TONE, MAX_TONE);
    }

    /// Sets the volume, limited to -30..0 dB.
    pub fn set_volume(&mut self, volume_db: Milli)
        ensures
            *final(self) == (BleeperEngine {
                volume_db: clamped(volume_db as int, MIN_VOLUME as int, MAX_VOLUME as int) as i32,
                ..*old(self)
            }),
            old(self).wf() ==> final(self).wf(),
    {
        self.volume_db = clamp(volume_db, MIN_VOLUME, MAX_VOLUME);
    }

    /// Arms or disarms the censor.
    pub fn set_armed(&mut self, armed: bool)
        ensures
            *final(self) == (BleeperEngine { armed, ..*old(self) }),
    {
        self.armed = armed;
    }

    /// Censors the stretch from `start` to `end`. Silence and turning around
    /// are done here; for a tone or noise the answer names the mode and the
    /// buffer is left to the caller. A censor that is not armed, and a
    /// stretch that is empty or leaves the buffer, change nothing.
    pub fn censor<T: Copy>(&self, samples: &mut Vec<T>, start: usize, end: usize, silence: T) -> (r:
        Option<BleepMode>)
        ensures
            final(samples)@ == self.censored(old(samples)@, start as int, end as int, silence),
            r == self.wanted(old(samples)@.len() as int, start as int, end as int),
    {
        if !self.armed || start >= end || end > samples.len() {
            return None;
        }
        match self.mode {
            BleepMode::Beep => Some(BleepMode::Beep),
            BleepMode::Noise => Some(BleepMode::Noise),
            BleepMode::Reverse => {
                reverse_region(samples, start, end);
                None
            },
            BleepMode::Mute | BleepMode::Custom => {
                fill_region(samples, start, end, silence);
                None
            },
        }
    }
}

/// Writes `value` over the samples from `start` to `end`.
pub fn fill_region<T: Copy>(samples: &mut Vec<T>, start: usize, end: usize, value: T)
    requires
        start <= end <= old(samples)@.len(),
    ensures
        final(samples)@ == silenced(old(samples)@, start as int, end as int, value),
{
    let mut i: usize = start;
    while i < end
        invariant
            start <= i <= end <= samples@.len(),
            samples@.len() == old(samples)@.len(),
            forall|j: int|
                0 <= j < samples@.len() ==> #[trigger] samples@[j] == if start <= j < i {
                    value
                } else {
                    old(samples)@[j]
                },
        decreases end - i,
    {
        samples.set(i, value);
        i += 1;
    }
}

/// Puts the samples from `start` to `end` in backward order.
pub fn reverse_region<T: Copy>(samples: &mut Vec<T>, start: usize, end: usize)
    requires
        start < end <= old(samples)@.len(),
    ensures
        final(samples)@ == turned(old(samples)@, start as int, end as int),
{
    let mut lo: usize = start;
    let mut hi: usize = end - 1;
    while lo < hi
        invariant
            start < end,
            start <= lo <= hi + 1,
            hi < end <= samples@.len(),
            lo + hi == start + end - 1,
            samples@.len() == old(samples)@.len(),
            forall|i: int|
                0 <= i < samples@.len() ==> #[trigger] samples@[i] == if (start <= i < lo) || (hi
                    < i < end) {
                    old(samples)@[start + end - 1 - i]
                } else {
                    old(samples)@[i]
                },
        decreases end - lo,
    {
        let a = samples[lo];
        let b = samples[hi];
        samples.set(lo, b);
        samples.set(hi, a);
        lo += 1;
        hi -= 1;
    }
}

/// Turning a stretch around twice gives back the buffer.
pub proof fn lemma_turned_twice<T>(s: Seq<T>, start: int, end: int)
    requires
        0 <= start <= end <= s.len(),
    ensures
        turned(turned(s, start, end), start, end) == s,
{
}

} // verus!
