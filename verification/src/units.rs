//! Fixed-point parameter values and the sample clock.
//!
//! Every level, time, frequency and ratio that the mixer is controlled with is
//! a whole number of thousandths: `-12_500` stands for -12.5 dB, `5_000` for
//! 5 ms, `80_000` for 80 Hz. A measured amplitude is a whole number of
//! millionths of full scale.

use vstd::prelude::*;

verus! {

/// A parameter value in thousandths of its unit.
pub type Milli = i32;

/// A linear amplitude in millionths of full scale.
pub type Level = u32;

/// Full scale: 0 dBFS.
pub const FULL_SCALE: Level = 1_000_000;

/// Samples per second of the reference design.
pub const SAMPLE_RATE: u32 = 48000;

/// Samples per processing buffer of the reference design.
pub const BUFFER_SIZE: usize = 256;

/// `v` limited to the range from `lo` to `hi`.
pub open spec fn clamped(v: int, lo: int, hi: int) -> int {
    if v < lo {
        lo
    } else if v > hi {
        hi
    } else {
        v
    }
}

/// Whether `v` lies in the range from `lo` to `hi`, ends included.
pub open spec fn within(v: int, lo: int, hi: int) -> bool {
    lo <= v <= hi
}

/// Limits `v` to the range from `lo` to `hi`.
pub fn clamp(v: Milli, lo: Milli, hi: Milli) -> (r: Milli)
    requires
        lo <= hi,
    ensures
        r == clamped(v as int, lo as int, hi as int),
{
    if v < lo {
        lo
    } else if v > hi {
        hi
    } else {
        v
    }
}

/// The whole samples that fit into `duration` thousandths of a millisecond at
/// `rate` samples per second; nothing for a negative duration.
pub open spec fn samples_in(duration: int, rate: int) -> int {
    if duration <= 0 {
        0
    } else {
        duration * rate / 1_000_000
    }
}

/// Counts the whole samples in a duration given in thousandths of a
/// millisecond.
pub fn duration_to_samples(duration: Milli, rate: u32) -> (r: u64)
    ensures
        r == samples_in(duration as int, rate as int),
{
    if duration <= 0 {
        0
    } else {
        assert(duration as int * rate as int <= 0x7fff_ffff * 0xffff_ffff) by (nonlinear_arith)
            requires
                0 < duration <= 0x7fff_ffff,
                0 <= rate <= 0xffff_ffff,
        ;
        (duration as u64) * (rate as u64) / 1_000_000
    }
}

} // verus!
