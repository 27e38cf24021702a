//! Limiter stage: its controls and the look-ahead delay lines.
//!
//! The limiter never looks into a sample: it keeps the samples of the last
//! five milliseconds of both channels in order and hands each one back when
//! it has been overtaken by a full window. What a sample is, and how loud, is
//! the business of whoever computes the gain.

use std::collections::VecDeque;
use vstd::prelude::*;
use crate::text::{check_range, range_refusal};
use crate::units::Milli;

verus! {

/// Lowest ceiling: -20 dB.
pub const MIN_CEILING: Milli = -20_000;

/// Highest ceiling: 0 dB.
pub const MAX_CEILING: Milli = 0;

/// Ceiling of a new limiter: -0.3 dB.
pub const DEFAULT_CEILING: Milli = -300;

/// Shortest release: 10 ms.
pub const MIN_RELEASE: Milli = 10_000;

/// Longest release: 1000 ms.
pub const MAX_RELEASE: Milli = 1_000_000;

/// Release of a new limiter: 50 ms.
pub const DEFAULT_RELEASE: Milli = 50_000;

/// Length of the look-ahead in milliseconds.
pub const LOOKAHEAD_MS: u64 = 5;

/// The samples of look-ahead at `rate` samples per second.
pub open spec fn lookahead_for(rate: int) -> int {
    LOOKAHEAD_MS as int * rate / 1000
}

/// What a ceiling is refused with, if it is.
pub open spec fn ceiling_refusal(ceiling_db: int) -> Option<Seq<char>> {
    range_refusal(
        ceiling_db,
        MIN_CEILING as int,
        MAX_CEILING as int,
        "Ceiling außerhalb des Bereichs: "@,
        " dB (erlaubt: -20 bis 0 dB)"@,
    )
}

/// What a release is refused with, if it is.
pub open spec fn release_refusal(release_ms: int) -> Option<Seq<char>> {
    range_refusal(
        release_ms,
        MIN_RELEASE as int,
        MAX_RELEASE as int,
        "Release außerhalb des Bereichs: "@,
        " ms (erlaubt: 10 bis 1000 ms)"@,
    )
}

/// A delay line of `n` samples after `x` went in: what came out, and what it
/// holds now. While it holds fewer than `n` samples nothing comes out.
pub open spec fn delayed<T>(window: Seq<T>, x: T, n: nat) -> (Option<T>, Seq<T>) {
    let grown = window.push(x);
    if grown.len() > n {
        (Some(grown[0]), grown.skip(1))
    } else {
        (None, grown)
    }
}

/// What a delay line of `n` samples holds after all of `fed` went in, one by
/// one: the last `n` of them.
pub open spec fn window_after<T>(fed: Seq<T>, n: nat) -> Seq<T> {
    if fed.len() <= n {
        fed
    } else {
        fed.subrange(fed.len() - n, fed.len() as int)
    }
}

/// A delay line of `n` samples that has been fed from empty gives back each
/// sample exactly `n` samples late, and nothing for the first `n`.
pub proof fn lemma_fixed_latency<T>(fed: Seq<T>, x: T, n: nat)
    ensures
        delayed(window_after(fed, n), x, n).1 == window_after(fed.push(x), n),
        delayed(window_after(fed, n), x, n).0 == if fed.len() >= n {
            Some(fed.push(x)[fed.len() - n])
        } else {
            None::<T>
        },
{
}

/// A line of waiting samples, oldest first. Its view is what waits.
pub struct DelayLine<T> {
    buf: VecDeque<T>,
}

impl<T> View for DelayLine<T> {
    type V = Seq<T>;

    closed spec fn view(&self) -> Seq<T> {
        self.buf@
    }
}

impl<T> DelayLine<T> {
    /// An empty line.
    pub fn new() -> (r: Self)
        ensures
            r@ == Seq::<T>::empty(),
    {
        DelayLine { buf: VecDeque::new() }
    }

    /// Takes `x` in and, where more than `n` samples wait then, hands the
    /// oldest out.
    pub fn push(&mut self, x: T, n: usize) -> (r: Option<T>)
        ensures
            (r, final(self)@) == delayed(old(self)@, x, n as nat),
    {
        broadcast use vstd::std_specs::vecdeque::group_vec_dequeue_axioms;

        self.buf.push_back(x);
        if self.buf.len() > n {
            let out = self.buf.pop_front();
            out
        } else {
            None
        }
    }

    /// The number of waiting samples.
    pub fn len(&self) -> (r: usize)
        ensures
            r == self@.len(),
    {
        broadcast use vstd::std_specs::vecdeque::group_vec_dequeue_axioms;

        self.buf.len()
    }

    /// The waiting sample at `i`, counted from the oldest.
    pub fn peek(&self, i: usize) -> (r: &T)
        requires
            i < self@.len(),
        ensures
            *r == self@[i as int],
    {
        broadcast use vstd::std_specs::vecdeque::group_vec_dequeue_axioms;

        &self.buf[i]
    }

    /// Drops every waiting sample.
    pub fn clear(&mut self)
        ensures
            final(self)@ == Seq::<T>::empty(),
    {
        self.buf.clear();
    }
}

/// The pair of what came out of both delay lines, where both gave a sample.
pub open spec fn pair_of<T>(left: Option<T>, right: Option<T>) -> Option<(T, T)> {
    match (left, right) {
        (Some(l), Some(r)) => Some((l, r)),
        _ => None,
    }
}

/// Controls and delay lines of the limiter.
pub struct LimiterModule<T> {
    /// Ceiling in thousandths of a decibel.
    pub ceiling_db: Milli,
    /// Release in thousandths of a millisecond.
    pub release_ms: Milli,
    /// Whether the stage is skipped.
    pub bypassed: bool,
    /// Samples per second.
    pub sample_rate: u32,
    /// Length of the look-ahead in samples.
    pub lookahead_samples: usize,
    /// The waiting samples of the left channel.
    pub lookahead_buffer_l: DelayLine<T>,
    /// The waiting samples of the right channel.
    pub lookahead_buffer_r: DelayLine<T>,
}

impl<T> LimiterModule<T> {
    /// The controls lie in their ranges, the look-ahead is five milliseconds
    /// long, and both delay lines hold the same number of samples, no more
    /// than the look-ahead.
    pub open spec fn wf(&self) -> bool {
        &&& MIN_CEILING <= self.ceiling_db <= MAX_CEILING
        &&& MIN_RELEASE <= self.release_ms <= MAX_RELEASE
        &&& self.lookahead_samples == lookahead_for(self.sample_rate as int)
        &&& self.lookahead_buffer_l@.len() == self.lookahead_buffer_r@.len()
        &&& self.lookahead_buffer_l@.len() <= self.lookahead_samples
    }

    /// The controls, without what waits in the delay lines.
    pub open spec fn controls(&self) -> (Milli, Milli, bool, u32, usize) {
        (self.ceiling_db, self.release_ms, self.bypassed, self.sample_rate, self.lookahead_samples)
    }

    /// Whether this is a limiter as it is made: at -0.3 dB with release
    /// 50 ms, not bypassed, with a look-ahead of five milliseconds and empty
    /// delay lines.
    pub open spec fn is_initial(&self, sample_rate: u32) -> bool {
        &&& self.controls() == (
            DEFAULT_CEILING,
            DEFAULT_RELEASE,
            false,
            sample_rate,
            lookahead_for(sample_rate as int) as usize,
        )
        &&& self.lookahead_buffer_l@ == Seq::<T>::empty()
        &&& self.lookahead_buffer_r@ == Seq::<T>::empty()
    }

    /// A limiter at -0.3 dB with release 50 ms, not bypassed, with empty
    /// delay lines.
    pub fn new(sample_rate: u32) -> (r: Self)
        ensures
            r.is_initial(sample_rate),
            r.wf(),
    {
        let lookahead: u64 = LOOKAHEAD_MS * (sample_rate as u64) / 1000;
        LimiterModule {
            ceiling_db: DEFAULT_CEILING,
            release_ms: DEFAULT_RELEASE,
            bypassed: false,
            sample_rate,
            lookahead_samples: lookahead as usize,
            lookahead_buffer_l: DelayLine::new(),
            lookahead_buffer_r: DelayLine::new(),
        }
    }

    /// Sets the ceiling; one outside -20..0 dB is refused and changes nothing.
    pub fn set_ceiling(&mut self, ceiling_db: Milli) -> (r: Result<(), String>)
        ensures
            match ceiling_refusal(ceiling_db as int) {
                Some(msg) => r is Err && r->Err_0@ == msg && *final(self) == *old(self),
                None => r is Ok && *final(self) == (LimiterModule { ceiling_db, ..*old(self) }),
            },
            old(self).wf() ==> final(self).wf(),
    {
        match check_range(
            ceiling_db,
            MIN_CEILING,
            MAX_CEILING,
            "Ceiling außerhalb des Bereichs: ",
            " dB (erlaubt: -20 bis 0 dB)",
        ) {
            Err(e) => Err(e),
            Ok(_) => {
                self.ceiling_db = ceiling_db;
                Ok(())
            },
        }
    }

    /// Sets the release; one outside 10..1000 ms is refused and changes
    /// nothing.
    pub fn set_release(&mut self, release_ms: Milli) -> (r: Result<(), String>)
        ensures
            match release_refusal(release_ms as int) {
                Some(msg) => r is Err && r->Err_0@ == msg && *final(self) == *old(self),
                None => r is Ok && *final(self) == (LimiterModule { release_ms, ..*old(self) }),
            },
            old(self).wf() ==> final(self).wf(),
    {
        match check_range(
            release_ms,
            MIN_RELEASE,
            MAX_RELEASE,
            "Release außerhalb des Bereichs: ",
            " ms (erlaubt: 10 bis 1000 ms)",
        ) {
            Err(e) => Err(e),
            Ok(_) => {
                self.release_ms = release_ms;
                Ok(())
            },
        }
    }

    /// Takes in one sample of each channel. Once the delay lines are full the
    /// oldest pair comes out; until then nothing does, and the output is
    /// silence.
    pub fn push(&mut self, left: T, right: T) -> (r: Option<(T, T)>)
        ensures
            old(self).wf() ==> final(self).wf(),
            final(self).controls() == old(self).controls(),
            final(self).lookahead_buffer_l@ == delayed(
                old(self).lookahead_buffer_l@,
                left,
                old(self).lookahead_samples as nat,
            ).1,
            final(self).lookahead_buffer_r@ == delayed(
                old(self).lookahead_buffer_r@,
                right,
                old(self).lookahead_samples as nat,
            ).1,
            r == pair_of(
                delayed(old(self).lookahead_buffer_l@, left, old(self).lookahead_samples as nat).0,
                delayed(old(self).lookahead_buffer_r@, right, old(self).lookahead_samples as nat).0,
            ),
            old(self).wf() ==> (r is Some <==> old(self).lookahead_buffer_l@.len() == old(
                self,
            ).lookahead_samples),
    {
        let l = self.lookahead_buffer_l.push(left, self.lookahead_samples);
        let r = self.lookahead_buffer_r.push(right, self.lookahead_samples);
        match (l, r) {
            (Some(l), Some(r)) => Some((l, r)),
            _ => None,
        }
    }

    /// Switches the bypass.
    pub fn set_bypass(&mut self, bypass: bool)
        ensures
            *final(self) == (LimiterModule { bypassed: bypass, ..*old(self) }),
    {
        self.bypassed = bypass;
    }

    /// Whether the stage is skipped.
    pub fn is_bypassed(&self) -> (r: bool)
        ensures
            r == self.bypassed,
    {
        self.bypassed
    }

    /// Empties both delay lines; the controls stay.
    pub fn reset(&mut self)
        ensures
            final(self).lookahead_buffer_l@ == Seq::<T>::empty(),
            final(self).lookahead_buffer_r@ == Seq::<T>::empty(),
            final(self).controls() == old(self).controls(),
            old(self).wf() ==> final(self).wf(),
    {
        self.lookahead_buffer_l.clear();
        self.lookahead_buffer_r.clear();
    }
}

} // verus!
