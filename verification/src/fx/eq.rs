//! Three-band equalizer stage: frequency, gain and Q of each band.

use vstd::prelude::*;
use crate::text::{check_range, range_refusal};
use crate::units::Milli;

verus! {

/// Lowest band frequency: 20 Hz.
pub const MIN_FREQ: Milli = 20_000;

/// Highest band frequency: 20 kHz.
pub const MAX_FREQ: Milli = 20_000_000;

/// Lowest band gain: -12 dB.
pub const MIN_GAIN: Milli = -12_000;

/// Highest band gain: +12 dB.
pub const MAX_GAIN: Milli = 12_000;

/// Lowest Q: 0.5.
pub const MIN_Q: Milli = 500;

/// Highest Q: 5.
pub const MAX_Q: Milli = 5_000;

/// One peaking band.
#[derive(Debug, Clone, Copy, PartialEq, Eq, Structural)]
pub struct EqBand {
    /// Centre frequency in thousandths of a hertz.
    pub freq_hz: Milli,
    /// Gain in thousandths of a decibel.
    pub gain_db: Milli,
    /// Q in thousandths.
    pub q: Milli,
}

impl EqBand {
    /// Frequency, gain and Q lie in their ranges.
    pub open spec fn wf(&self) -> bool {
        &&& MIN_FREQ <= self.freq_hz <= MAX_FREQ
        &&& MIN_GAIN <= self.gain_db <= MAX_GAIN
        &&& MIN_Q <= self.q <= MAX_Q
    }
}

/// What the settings of a band are refused with, if they are: the frequency
/// is looked at first, then the gain, then Q. `label` names the band.
pub open spec fn band_refusal(label: Seq<char>, freq_hz: int, gain_db: int, q: int) -> Option<
    Seq<char>,
> {
    let f = range_refusal(
        freq_hz,
        MIN_FREQ as int,
        MAX_FREQ as int,
        label + " Freq außerhalb: "@,
        " Hz"@,
    );
    let g = range_refusal(
        gain_db,
        MIN_GAIN as int,
        MAX_GAIN as int,
        label + " Gain außerhalb: "@,
        " dB"@,
    );
    let w = range_refusal(q, MIN_Q as int, MAX_Q as int, label + " Q außerhalb: "@, ""@);
    if f is Some {
        f
    } else if g is Some {
        g
    } else {
        w
    }
}

/// Validates the settings of one band.
pub fn check_band(label: &str, freq_hz: Milli, gain_db: Milli, q: Milli) -> (r: Result<
    EqBand,
    String,
>)
    ensures
        match band_refusal(label@, freq_hz as int, gain_db as int, q as int) {
            Some(msg) => r is Err && r->Err_0@ == msg,
            None => r == Ok::<EqBand, String>(EqBand { freq_hz, gain_db, q }) && r->Ok_0.wf(),
        },
{
    let before_f = crate::text::concat2(label, " Freq außerhalb: ");
    match check_range(freq_hz, MIN_FREQ, MAX_FREQ, before_f.as_str(), " Hz") {
        Err(e) => {
            return Err(e);
        },
        Ok(_) => {},
    }
    let before_g = crate::text::concat2(label, " Gain außerhalb: ");
    match check_range(gain_db, MIN_GAIN, MAX_GAIN, before_g.as_str(), " dB") {
        Err(e) => {
            return Err(e);
        },
        Ok(_) => {},
    }
    let before_q = crate::text::concat2(label, " Q außerhalb: ");
    match check_range(q, MIN_Q, MAX_Q, before_q.as_str(), "") {
        Err(e) => {
            return Err(e);
        },
        Ok(_) => {},
    }
    Ok(EqBand { freq_hz, gain_db, q })
}

/// Controls of the equalizer.
#[derive(Debug, Clone, Copy, PartialEq, Eq, Structural)]
pub struct EqModule {
    /// The low band.
    pub low: EqBand,
    /// The mid band.
    pub mid: EqBand,
    /// The high band.
    pub high: EqBand,
    /// Whether the stage is skipped.
    pub bypassed: bool,
}

impl EqModule {
    /// Every band lies in its ranges.
    pub open spec fn wf(&self) -> bool {
        self.low.wf() && self.mid.wf() && self.high.wf()
    }

    /// Flat bands at 80 Hz, 1 kHz and 8 kHz with Q 1, not bypassed.
    pub open spec fn initial() -> Self {
        EqModule {
            low: EqBand { freq_hz: 80_000, gain_db: 0, q: 1_000 },
            mid: EqBand { freq_hz: 1_000_000, gain_db: 0, q: 1_000 },
            high: EqBand { freq_hz: 8_000_000, gain_db: 0, q: 1_000 },
            bypassed: false,
        }
    }

    /// Flat bands at 80 Hz, 1 kHz and 8 kHz with Q 1, not bypassed.
    pub fn new(_sample_rate: u32) -> (r: Self)
        ensures
            r == Self::initial(),
            r.wf(),
    {
        EqModule {
            low: EqBand { freq_hz: 80_000, gain_db: 0, q: 1_000 },
            mid: EqBand { freq_hz: 1_000_000, gain_db: 0, q: 1_000 },
            high: EqBand { freq_hz: 8_000_000, gain_db: 0, q: 1_000 },
            bypassed: false,
        }
    }

    /// Sets the low band; settings outside their ranges are refused and change
    /// nothing.
    pub fn set_low(&mut self, freq_hz: Milli, gain_db: Milli, q: Milli) -> (r: Result<(), String>)
        ensures
            match band_refusal("Low"@, freq_hz as int, gain_db as int, q as int) {
                Some(msg) => r is Err && r->Err_0@ == msg && *final(self) == *old(self),
                None => r is Ok && *final(self) == (EqModule {
                    low: EqBand { freq_hz, gain_db, q },
                    ..*old(self)
                }) && final(self).low.wf(),
            },
    {
        match check_band("Low", freq_hz, gain_db, q) {
            Err(e) => Err(e),
            Ok(band) => {
                self.low = band;
                Ok(())
            },
        }
    }

    /// Sets the mid band; settings outside their ranges are refused and change
    /// nothing.
    pub fn set_mid(&mut self, freq_hz: Milli, gain_db: Milli, q: Milli) -> (r: Result<(), String>)
        ensures
            match band_refusal("Mid"@, freq_hz as int, gain_db as int, q as int) {
                Some(msg) => r is Err && r->Err_0@ == msg && *final(self) == *old(self),
                None => r is Ok && *final(self) == (EqModule {
                    mid: EqBand { freq_hz, gain_db, q },
                    ..*old(self)
                }) && final(self).mid.wf(),
            },
    {
        match check_band("Mid", freq_hz, gain_db, q) {
            Err(e) => Err(e),
            Ok(band) => {
                self.mid = band;
                Ok(())
            },
        }
    }

    /// Sets the high band; settings outside their ranges are refused and change
    /// nothing.
    pub fn set_high(&mut self, freq_hz: Milli, gain_db: Milli, q: Milli) -> (r: Result<(), String>)
        ensures
            match band_refusal("High"@, freq_hz as int, gain_db as int, q as int) {
                Some(msg) => r is Err && r->Err_0@ == msg && *final(self) == *old(self),
                None => r is Ok && *final(self) == (EqModule {
                    high: EqBand { freq_hz, gain_db, q },
                    ..*old(self)
                }) && final(self).high.wf(),
            },
    {
        match check_band("High", freq_hz, gain_db, q) {
            Err(e) => Err(e),
            Ok(band) => {
                self.high = band;
                Ok(())
            },
        }
    }

    /// Switches the bypass.
    pub fn set_bypass(&mut self, bypass: bool)
        ensures
            *final(self) == (EqModule { bypassed: bypass, ..*old(self) }),
    {
        self.bypassed = bypass;
    }

    /// Whether the stage is skipped.
    pub fn is_bypassed(&self) -> (r: bool)
        ensures
            r == self.bypassed,
    {
        self.bypassed
    }
}

} // verus!
