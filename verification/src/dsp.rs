//! Signal conditioning for the mixer: noise gating, single-pole high-pass
//! filtering, RMS energy estimation, adaptive gain, and soft limiting.
//!
//! Gains are expressed in hundredths (a gain of `100` is unity). RMS values
//! and thresholds are in the same fixed-point amplitude units as samples.

use vstd::prelude::*;
use vstd::arithmetic::div_mod::{
    lemma_div_is_ordered, lemma_div_multiples_vanish, lemma_div_pos_is_pos,
    lemma_multiply_divide_lt,
};

use crate::FULL_SCALE;
use crate::valid_sample;
use crate::sample::{div_trunc, tdiv, lemma_tdiv_bound};

verus! {

/// Denominator of the gain representation: a gain of `GAIN_UNIT` is unity.
pub const GAIN_UNIT: i64 = 100;

/// Numerator of the single-pole low-pass coefficient, over `GAIN_UNIT`.
pub const FILTER_POLE: i64 = 99;

/// Magnitude below which a voice sample is treated as background noise.
pub const VOICE_GATE_THRESHOLD: i64 = 5_000;

/// Magnitude below which a system-audio sample is treated as background noise.
pub const SYSTEM_GATE_THRESHOLD: i64 = 3_000;

/// Voice RMS below this is quiet and is boosted.
pub const VOICE_RMS_QUIET: i64 = 10_000;

/// Voice RMS above this is loud and is attenuated.
pub const VOICE_RMS_LOUD: i64 = 500_000;

/// System RMS above this is loud and is attenuated harder.
pub const SYSTEM_RMS_LOUD: i64 = 300_000;

/// Gain applied to quiet voice (a two-times boost).
pub const VOICE_GAIN_QUIET: i64 = 200;

/// Gain applied to loud voice.
pub const VOICE_GAIN_LOUD: i64 = 60;

/// Gain applied to voice of ordinary level (a mild boost).
pub const VOICE_GAIN_MID: i64 = 120;

/// Gain applied to loud system audio.
pub const SYSTEM_GAIN_LOUD: i64 = 20;

/// Gain applied to system audio of ordinary level.
pub const SYSTEM_GAIN_NORMAL: i64 = 40;

/// Ceiling above which the soft limiter compresses.
pub const LIMITER_CEILING: i64 = 950_000;

/// The limiter's overshoot allowance: limited output never reaches
/// `LIMITER_CEILING + LIMITER_OVERSHOOT` (which equals `FULL_SCALE`).
pub const LIMITER_OVERSHOOT: i64 = 50_000;

/// Steepness of the limiter's saturating curve.
pub const LIMITER_STEEPNESS: i64 = 20;

/// Largest magnitude the limiter accepts; comfortably above anything the
/// mixing pipeline can produce.
pub const LIMITER_INPUT_MAX: i64 = 100_000_000;

/// The noise gate: samples closer to silence than the threshold are zeroed.
pub open spec fn gate(s: int, threshold: int) -> int {
    if -threshold < s < threshold {
        0
    } else {
        s
    }
}

/// Applies the noise gate to one sample.
pub fn apply_gate(s: i64, threshold: i64) -> (r: i64)
    requires
        threshold >= 0,
    ensures
        r == gate(s as int, threshold as int),
{
    if -threshold < s && s < threshold {
        0
    } else {
        s
    }
}

/// One update of the exponentially-weighted low-pass estimate: the estimate
/// decays by `FILTER_POLE / GAIN_UNIT` and absorbs a `1 / GAIN_UNIT` share of
/// the new sample.
pub open spec fn lowpass_next(state: int, x: int) -> int {
    tdiv(FILTER_POLE * state + x, GAIN_UNIT as int)
}

/// High-pass output: the sample with the updated low-pass estimate removed.
pub open spec fn highpass_out(state: int, x: int) -> int {
    x - lowpass_next(state, x)
}

/// Advances the high-pass filter by one sample, returning the filtered
/// sample and updating the low-pass state. The state never leaves the
/// normalized range, so the filtered sample is at most two full scales.
pub fn highpass_step(state: &mut i64, x: i64) -> (r: i64)
    requires
        valid_sample(*old(state)),
        valid_sample(x),
    ensures
        *final(state) == lowpass_next(*old(state) as int, x as int),
        valid_sample(*final(state)),
        r == highpass_out(*old(state) as int, x as int),
        -2 * FULL_SCALE <= r <= 2 * FULL_SCALE,
{
    let acc: i64 = FILTER_POLE * *state + x;
    proof {
        lemma_tdiv_bound(acc as int, GAIN_UNIT as int, FULL_SCALE as int);
    }
    *state = div_trunc(acc, GAIN_UNIT);
    x - *state
}

/// Scaling a sample by a gain in hundredths.
pub open spec fn apply_gain(y: int, g: int) -> int {
    tdiv(y * g, GAIN_UNIT as int)
}

/// Scales a filtered sample by a gain of at most two.
pub fn scale_gain(y: i64, g: i64) -> (r: i64)
    requires
        -2 * FULL_SCALE <= y <= 2 * FULL_SCALE,
        0 <= g <= 200,
    ensures
        r == apply_gain(y as int, g as int),
        -4 * FULL_SCALE <= r <= 4 * FULL_SCALE,
{
    proof {
        assert(-(200 * (2 * FULL_SCALE)) <= y * g <= 200 * (2 * FULL_SCALE)) by (nonlinear_arith)
            requires
                -2 * FULL_SCALE <= y <= 2 * FULL_SCALE,
                0 <= g <= 200,
        ;
        lemma_tdiv_bound(y as int * g as int, GAIN_UNIT as int, (4 * FULL_SCALE) as int);
    }
    div_trunc(y * g, GAIN_UNIT)
}

/// The voice gain derived from the voice RMS: quiet voice is boosted, loud
/// voice attenuated, ordinary voice mildly boosted.
pub open spec fn voice_gain_for(rms: int) -> int {
    if rms < VOICE_RMS_QUIET {
        VOICE_GAIN_QUIET as int
    } else if rms > VOICE_RMS_LOUD {
        VOICE_GAIN_LOUD as int
    } else {
        VOICE_GAIN_MID as int
    }
}

/// The system gain derived from the system RMS: always an attenuation, and a
/// strong one when the system audio is loud, to keep speech dominant.
pub open spec fn system_gain_for(rms: int) -> int {
    if rms > SYSTEM_RMS_LOUD {
        SYSTEM_GAIN_LOUD as int
    } else {
        SYSTEM_GAIN_NORMAL as int
    }
}

/// Selects the voice gain for a measured RMS.
pub fn voice_gain(rms: i64) -> (g: i64)
    ensures
        g == voice_gain_for(rms as int),
        0 < g <= 200,
{
    if rms < VOICE_RMS_QUIET {
        VOICE_GAIN_QUIET
    } else if rms > VOICE_RMS_LOUD {
        VOICE_GAIN_LOUD
    } else {
        VOICE_GAIN_MID
    }
}

/// Selects the system gain for a measured RMS.
pub fn system_gain(rms: i64) -> (g: i64)
    ensures
        g == system_gain_for(rms as int),
        0 < g <= 200,
{
    if rms > SYSTEM_RMS_LOUD {
        SYSTEM_GAIN_LOUD
    } else {
        SYSTEM_GAIN_NORMAL
    }
}

/// How far above the ceiling a limited sample sits, for an excess of `d`
/// above the ceiling: a saturating curve that rises from zero and stays
/// strictly below the overshoot allowance.
pub open spec fn limiter_overshoot(d: int) -> int {
    tdiv(
        LIMITER_OVERSHOOT * (LIMITER_STEEPNESS * d),
        LIMITER_STEEPNESS * d + FULL_SCALE,
    )
}

/// The saturating overshoot stays within `[0, LIMITER_OVERSHOOT)`.
pub proof fn lemma_limiter_overshoot_bounds(d: int)
    requires
        0 <= d,
    ensures
        0 <= limiter_overshoot(d) < LIMITER_OVERSHOOT,
{
    let num = LIMITER_OVERSHOOT * (LIMITER_STEEPNESS * d);
    let den = LIMITER_STEEPNESS * d + FULL_SCALE;
    lemma_div_pos_is_pos(num, den);
    assert(num < den * (LIMITER_OVERSHOOT as int)) by (nonlinear_arith)
        requires
            0 <= d,
            num == LIMITER_OVERSHOOT * (LIMITER_STEEPNESS * d),
            den == LIMITER_STEEPNESS * d + FULL_SCALE,
    ;
    lemma_multiply_divide_lt(num, den, LIMITER_OVERSHOOT as int);
}

/// The soft limiter: values within the ceiling pass through; values beyond
/// it are compressed onto the saturating curve just above the ceiling.
pub open spec fn soft_limit(m: int) -> int {
    if m > LIMITER_CEILING {
        LIMITER_CEILING + limiter_overshoot(m - LIMITER_CEILING)
    } else if m < -LIMITER_CEILING {
        -LIMITER_CEILING - limiter_overshoot(-m - LIMITER_CEILING)
    } else {
        m
    }
}

/// The limited output never exceeds the ceiling plus the overshoot
/// allowance, whatever the mixed value was.
pub proof fn lemma_soft_limit_within_allowance(m: int)
    ensures
        -(LIMITER_CEILING + LIMITER_OVERSHOOT) <= soft_limit(m) <= LIMITER_CEILING
            + LIMITER_OVERSHOOT,
        -FULL_SCALE <= soft_limit(m) <= FULL_SCALE,
{
    if m > LIMITER_CEILING {
        lemma_limiter_overshoot_bounds(m - LIMITER_CEILING);
    } else if m < -LIMITER_CEILING {
        lemma_limiter_overshoot_bounds(-m - LIMITER_CEILING);
    }
}

/// Applies the soft limiter to one mixed sample. Within the ceiling the
/// sample passes through unchanged; beyond it the output is compressed and
/// never exceeds the ceiling plus the overshoot allowance.
pub fn soft_limit_sample(m: i64) -> (r: i64)
    requires
        -LIMITER_INPUT_MAX <= m <= LIMITER_INPUT_MAX,
    ensures
        r == soft_limit(m as int),
        valid_sample(r),
        -LIMITER_CEILING <= m <= LIMITER_CEILING ==> r == m,
{
    proof {
        lemma_soft_limit_within_allowance(m as int);
    }
    if m > LIMITER_CEILING {
        let d = m - LIMITER_CEILING;
        proof {
            lemma_limiter_overshoot_bounds(d as int);
        }
        LIMITER_CEILING + div_trunc(
            LIMITER_OVERSHOOT * (LIMITER_STEEPNESS * d),
            LIMITER_STEEPNESS * d + FULL_SCALE,
        )
    } else if m < -LIMITER_CEILING {
        let d = -m - LIMITER_CEILING;
        proof {
            lemma_limiter_overshoot_bounds(d as int);
        }
        -LIMITER_CEILING - div_trunc(
            LIMITER_OVERSHOOT * (LIMITER_STEEPNESS * d),
            LIMITER_STEEPNESS * d + FULL_SCALE,
        )
    } else {
        m
    }
}

/// Sum of squared samples.
pub open spec fn sum_sq(s: Seq<i64>) -> int
    decreases s.len(),
{
    if s.len() == 0 {
        0
    } else {
        sum_sq(s.drop_last()) + s.last() * s.last()
    }
}

/// Appending a sample adds its square to the sum of squares.
pub proof fn lemma_sum_sq_push(s: Seq<i64>, x: i64)
    ensures
        sum_sq(s.push(x)) == sum_sq(s) + x * x,
{
    assert(s.push(x).drop_last() =~= s);
}

/// The integer square root: the largest integer whose square does not exceed
/// the argument.
pub open spec fn sqrt_floor(n: nat) -> nat
    decreases n,
{
    if n == 0 {
        0
    } else {
        let r = sqrt_floor((n - 1) as nat);
        if (r + 1) * (r + 1) <= n {
            (r + 1) as nat
        } else {
            r
        }
    }
}

/// `sqrt_floor` brackets its argument between consecutive squares.
pub proof fn lemma_sqrt_floor_bounds(n: nat)
    ensures
        sqrt_floor(n) * sqrt_floor(n) <= n,
        n < (sqrt_floor(n) + 1) * (sqrt_floor(n) + 1),
    decreases n,
{
    if n == 0 {
        let s = sqrt_floor(n);
        assert(s == 0);
        assert((s + 1) * (s + 1) == 1) by (nonlinear_arith)
            requires
                s == 0,
        ;
    } else {
        lemma_sqrt_floor_bounds((n - 1) as nat);
        let r = sqrt_floor((n - 1) as nat);
        if (r + 1) * (r + 1) <= n {
            assert(sqrt_floor(n) == r + 1);
            assert(n - 1 < (r + 1) * (r + 1));
            assert(n == (r + 1) * (r + 1));
            assert((r + 1) * (r + 1) < (r + 1 + 1) * (r + 1 + 1)) by (nonlinear_arith);
            assert(n < (sqrt_floor(n) + 1) * (sqrt_floor(n) + 1));
        } else {
            assert(sqrt_floor(n) == r);
            assert(sqrt_floor(n) * sqrt_floor(n) <= n);
            assert(n < (sqrt_floor(n) + 1) * (sqrt_floor(n) + 1));
        }
    }
}

/// Any value bracketed between consecutive squares of `r` is `sqrt_floor`.
pub proof fn lemma_sqrt_floor_unique(n: nat, r: nat)
    requires
        r * r <= n,
        n < (r + 1) * (r + 1),
    ensures
        r == sqrt_floor(n),
{
    lemma_sqrt_floor_bounds(n);
    let s = sqrt_floor(n);
    if r < s {
        assert((r + 1) * (r + 1) <= s * s) by (nonlinear_arith)
            requires
                r < s,
        ;
    } else if s < r {
        assert((s + 1) * (s + 1) <= r * r) by (nonlinear_arith)
            requires
                s < r,
        ;
    }
}

/// Computes the integer square root by bisection.
pub fn isqrt(n: i64) -> (r: i64)
    requires
        0 <= n <= 1_000_000_000_000,
    ensures
        r == sqrt_floor(n as nat),
        0 <= r <= 1_000_000,
{
    let mut lo: i64 = 0;
    let mut hi: i64 = 1_000_001;
    while lo + 1 < hi
        invariant
            0 <= lo < hi <= 1_000_001,
            lo * lo <= n,
            n < hi * hi,
            n <= 1_000_000_000_000,
        decreases hi - lo,
    {
        let mid = lo + (hi - lo) / 2;
        proof {
            assert(0 <= mid * mid <= 1_000_002_000_001) by (nonlinear_arith)
                requires
                    0 <= mid <= 1_000_001,
            ;
        }
        if mid * mid <= n {
            lo = mid;
        } else {
            hi = mid;
        }
    }
    proof {
        lemma_sqrt_floor_unique(n as nat, lo as nat);
    }
    lo
}

/// The RMS (root-mean-square) energy of a sequence of samples: the square
/// root of the mean of their squares, and zero for no samples.
pub open spec fn spec_rms(s: Seq<i64>) -> int {
    if s.len() == 0 {
        0
    } else {
        sqrt_floor((sum_sq(s) / s.len() as int) as nat) as int
    }
}

/// Measures the RMS energy of the first `count` buffered samples.
pub fn rms_prefix(buf: &Vec<i64>, count: usize) -> (r: i64)
    requires
        count <= buf@.len(),
        count <= 100_000,
        forall|i: int| 0 <= i < buf@.len() ==> valid_sample(buf@[i]),
    ensures
        r == spec_rms(buf@.subrange(0, count as int)),
        0 <= r <= FULL_SCALE,
{
    if count == 0 {
        proof {
            assert(buf@.subrange(0, 0) =~= Seq::<i64>::empty());
        }
        return 0;
    }
    let mut acc: i64 = 0;
    let mut i: usize = 0;
    while i < count
        invariant
            0 <= i <= count,
            count <= buf@.len(),
            count <= 100_000,
            forall|j: int| 0 <= j < buf@.len() ==> valid_sample(buf@[j]),
            acc == sum_sq(buf@.subrange(0, i as int)),
            0 <= acc <= i as int * 1_000_000_000_000,
        decreases count - i,
    {
        let x = buf[i];
        proof {
            assert(buf@.subrange(0, i + 1) =~= buf@.subrange(0, i as int).push(buf@[i as int]));
            lemma_sum_sq_push(buf@.subrange(0, i as int), buf@[i as int]);
            assert(0 <= x * x <= 1_000_000_000_000) by (nonlinear_arith)
                requires
                    -1_000_000 <= x <= 1_000_000,
            ;
        }
        acc = acc + x * x;
        i += 1;
    }
    let mean = acc / (count as i64);
    proof {
        let c = count as int;
        lemma_div_pos_is_pos(acc as int, c);
        lemma_div_is_ordered(acc as int, c * 1_000_000_000_000, c);
        lemma_div_multiples_vanish(1_000_000_000_000, c);
    }
    let root = isqrt(mean);
    proof {
        let s = buf@.subrange(0, count as int);
        assert(s.len() == count as int);
        lemma_sqrt_floor_bounds(mean as nat);
    }
    root
}

} // verus!
