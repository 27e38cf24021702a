//! Peak and RMS of a buffer of sample magnitudes.
//!
//! A magnitude is the absolute value of a sample in millionths of full
//! scale. The RMS is the whole part of the square root of the mean square.

use vstd::prelude::*;
use crate::units::Level;

verus! {

/// The largest of the magnitudes; zero for none.
pub open spec fn peak_of(s: Seq<Level>) -> Level
    decreases s.len(),
{
    if s.len() == 0 {
        0
    } else if s.last() > peak_of(s.drop_last()) {
        s.last()
    } else {
        peak_of(s.drop_last())
    }
}

/// The sum of the squares of the magnitudes.
pub open spec fn square_sum(s: Seq<Level>) -> nat
    decreases s.len(),
{
    if s.len() == 0 {
        0
    } else {
        square_sum(s.drop_last()) + (s.last() as nat) * (s.last() as nat)
    }
}

/// The whole part of the square root.
pub open spec fn isqrt(x: nat) -> nat
    decreases x,
{
    if x == 0 {
        0
    } else {
        let r = isqrt((x - 1) as nat);
        if (r + 1) * (r + 1) <= x {
            r + 1
        } else {
            r
        }
    }
}

/// The RMS of the magnitudes; zero for none.
pub open spec fn rms_of(s: Seq<Level>) -> nat {
    if s.len() == 0 {
        0
    } else {
        isqrt(square_sum(s) / s.len())
    }
}

/// The magnitudes of one channel of an interleaved buffer: the one at
/// `offset` and every `count`-th after it.
pub open spec fn channel(s: Seq<Level>, offset: nat, count: nat) -> Seq<Level>
    decreases
            if offset < s.len() {
                s.len() - offset
            } else {
                0
            },
{
    if offset >= s.len() || count == 0 {
        Seq::<Level>::empty()
    } else {
        seq![s[offset as int]] + channel(s, offset + count, count)
    }
}

/// The square of the whole root is the largest square that does not exceed
/// the number.
pub proof fn lemma_isqrt(x: nat)
    ensures
        isqrt(x) * isqrt(x) <= x < (isqrt(x) + 1) * (isqrt(x) + 1),
    decreases x,
{
    let q = isqrt(x);
    if x == 0 {
        assert(q * q <= x < (q + 1) * (q + 1)) by (nonlinear_arith)
            requires
                q == 0,
                x == 0,
        ;
    } else {
        lemma_isqrt((x - 1) as nat);
        let r = isqrt((x - 1) as nat);
        if (r + 1) * (r + 1) <= x {
            assert(q * q <= x < (q + 1) * (q + 1)) by (nonlinear_arith)
                requires
                    q == r + 1,
                    (r + 1) * (r + 1) <= x,
                    x - 1 < (r + 1) * (r + 1),
            ;
        } else {
            assert(q * q <= x < (q + 1) * (q + 1)) by (nonlinear_arith)
                requires
                    q == r,
                    r * r <= x - 1,
                    x < (r + 1) * (r + 1),
            ;
        }
    }
}

/// No other number lies with its square at or below `x` and with the square
/// of its successor above.
pub proof fn lemma_isqrt_unique(x: nat, r: nat)
    requires
        r * r <= x < (r + 1) * (r + 1),
    ensures
        r == isqrt(x),
{
    lemma_isqrt(x);
    let q = isqrt(x);
    if r < q {
        assert((r + 1) * (r + 1) <= q * q) by (nonlinear_arith)
            requires
                r + 1 <= q,
        ;
    } else if q < r {
        assert((q + 1) * (q + 1) <= r * r) by (nonlinear_arith)
            requires
                q + 1 <= r,
        ;
    }
}

/// The sum of the squares of `n` magnitudes stays below `n` times the
/// largest square.
pub proof fn lemma_square_sum_bound(s: Seq<Level>)
    ensures
        square_sum(s) <= s.len() * 0xffff_fffe_0000_0001,
    decreases s.len(),
{
    if s.len() > 0 {
        lemma_square_sum_bound(s.drop_last());
        let m = s.last() as nat;
        assert(m * m <= 0xffff_fffe_0000_0001) by (nonlinear_arith)
            requires
                m <= 0xffff_ffff,
        ;
    }
}

/// The whole part of the square root of a number below 2^64.
pub fn integer_sqrt(x: u128) -> (r: u32)
    requires
        x < 0x1_0000_0000_0000_0000,
    ensures
        r == isqrt(x as nat),
{
    let mut lo: u128 = 0;
    let mut hi: u128 = 0x1_0000_0000;
    while hi - lo > 1
        invariant
            lo < hi <= 0x1_0000_0000,
            lo * lo <= x < hi * hi,
        decreases hi - lo,
    {
        let mid = lo + (hi - lo) / 2;
        assert(mid * mid <= 0xffff_ffff * 0xffff_ffff) by (nonlinear_arith)
            requires
                mid <= 0xffff_ffff,
        ;
        if mid * mid <= x {
            lo = mid;
        } else {
            hi = mid;
        }
    }
    proof {
        lemma_isqrt_unique(x as nat, lo as nat);
    }
    lo as u32
}

/// Peak and RMS of one channel of an interleaved buffer of magnitudes.
pub fn calculate_peak_rms_channel(
    samples: &[Level],
    channel_offset: usize,
    channel_count: usize,
) -> (r: (Level, Level))
    requires
        channel_count > 0,
    ensures
        r.0 == peak_of(channel(samples@, channel_offset as nat, channel_count as nat)),
        r.1 == rms_of(channel(samples@, channel_offset as nat, channel_count as nat)),
{
    let ghost whole = channel(samples@, channel_offset as nat, channel_count as nat);
    let ghost mut seen: Seq<Level> = Seq::empty();
    let ghost mut next: nat = channel_offset as nat;
    let mut peak: Level = 0;
    let mut sum_squares: u128 = 0;
    let mut count: usize = 0;
    let mut i: usize = channel_offset;
    let mut done: bool = channel_offset >= samples.len();
    assert(seen + channel(samples@, next, channel_count as nat) =~= whole);
    while !done
        invariant
            channel_count > 0,
            !done ==> i < samples@.len() && next == i,
            done ==> next >= samples@.len(),
            seen + channel(samples@, next, channel_count as nat) == whole,
            seen.len() == count,
            count <= samples@.len(),
            !done ==> count <= i,
            peak == peak_of(seen),
            sum_squares == square_sum(seen),
        decreases
                if done {
                    0
                } else {
                    samples@.len() - i
                },
    {
        let m = samples[i];
        let ghost before = seen;
        let ghost rest = channel(samples@, next, channel_count as nat);
        proof {
            seen = seen.push(m);
            next = next + channel_count as nat;
            assert(seen.drop_last() =~= before);
            assert(rest =~= seq![m] + channel(samples@, next, channel_count as nat));
            assert(seen + channel(samples@, next, channel_count as nat) =~= before + rest);
            lemma_square_sum_bound(seen);
            assert(seen.len() * 0xffff_fffe_0000_0001 <= 0xffff_ffff_ffff_ffff
                * 0xffff_fffe_0000_0001) by (nonlinear_arith)
                requires
                    seen.len() <= 0xffff_ffff_ffff_ffff,
            ;
        }
        if m > peak {
            peak = m;
        }
        sum_squares = sum_squares + (m as u128) * (m as u128);
        count = count + 1;
        if channel_count >= samples.len() - i {
            done = true;
        } else {
            i = i + channel_count;
        }
    }
    assert(seen =~= whole);
    if count == 0 {
        (peak, 0)
    } else {
        proof {
            lemma_square_sum_bound(seen);
            assert(square_sum(seen) / (count as nat) <= 0xffff_fffe_0000_0001) by (nonlinear_arith)
                requires
                    square_sum(seen) <= (count as nat) * 0xffff_fffe_0000_0001,
                    count > 0,
            ;
        }
        let mean = sum_squares / (count as u128);
        (peak, integer_sqrt(mean))
    }
}

/// Peak and RMS of a buffer of magnitudes.
pub fn calculate_peak_rms(samples: &[Level]) -> (r: (Level, Level))
    ensures
        r.0 == peak_of(samples@),
        r.1 == rms_of(samples@),
{
    proof {
        lemma_channel_of_all(samples@, 0);
        assert(samples@.skip(0) =~= samples@);
    }
    calculate_peak_rms_channel(samples, 0, 1)
}

/// With one channel, the channel from `offset` on is the rest of the buffer.
pub proof fn lemma_channel_of_all(s: Seq<Level>, offset: nat)
    requires
        offset <= s.len(),
    ensures
        channel(s, offset, 1) == s.skip(offset as int),
    decreases s.len() - offset,
{
    if offset < s.len() {
        lemma_channel_of_all(s, offset + 1);
        assert(seq![s[offset as int]] + s.skip(offset as int + 1) =~= s.skip(offset as int));
    } else {
        assert(s.skip(offset as int) =~= Seq::<Level>::empty());
    }
}

} // verus!
