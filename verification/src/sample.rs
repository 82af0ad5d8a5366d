//! Conversion of native hardware sample formats to normalized fixed-point
//! samples, and downmixing of interleaved multi-channel audio to mono.
//!
//! A signed 16-bit sample is divided by the format's maximum magnitude; an
//! unsigned 16-bit sample is rescaled from `[0, u16::MAX]` onto one full
//! scale below and above silence. Native float samples are already
//! normalized and enter the library unchanged, so no conversion is defined
//! for them here. Multi-channel audio is downmixed by taking the arithmetic
//! mean of each interleaved frame.

use vstd::prelude::*;
use vstd::arithmetic::div_mod::{
    lemma_basic_div, lemma_div_is_ordered, lemma_div_multiples_vanish, lemma_div_plus_one,
    lemma_div_pos_is_pos, lemma_remainder_lower,
};
use vstd::arithmetic::mul::lemma_mul_inequality;

use crate::FULL_SCALE;
use crate::valid_sample;

verus! {

/// Magnitude of the most negative signed 16-bit sample, the format's
/// maximum magnitude.
pub const I16_MAX_MAGNITUDE: i64 = 32768;

/// Number of steps spanned by the unsigned 16-bit format.
pub const U16_SPAN: i64 = 65535;

/// Truncating division (rounding toward zero), the semantics of Rust's `/`
/// on signed integers; spec-level `/` is Euclidean, so the two agree only on
/// a nonnegative dividend.
pub open spec fn tdiv(a: int, d: int) -> int
    recommends
        d > 0,
{
    if a >= 0 {
        a / d
    } else {
        -((-a) / d)
    }
}

/// Truncating division on machine integers.
pub fn div_trunc(a: i64, d: i64) -> (r: i64)
    requires
        d > 0,
        a > i64::MIN,
    ensures
        r == tdiv(a as int, d as int),
{
    if a >= 0 {
        a / d
    } else {
        -((-a) / d)
    }
}

/// A dividend within `d * b` of zero divides (truncating) to within `b` of
/// zero.
pub proof fn lemma_tdiv_bound(a: int, d: int, b: int)
    requires
        d > 0,
        0 <= b,
        -(d * b) <= a <= d * b,
    ensures
        -b <= tdiv(a, d) <= b,
{
    if a >= 0 {
        lemma_div_pos_is_pos(a, d);
        lemma_div_is_ordered(a, d * b, d);
        lemma_div_multiples_vanish(b, d);
    } else {
        lemma_div_pos_is_pos(-a, d);
        lemma_div_is_ordered(-a, d * b, d);
        lemma_div_multiples_vanish(b, d);
    }
}

/// Truncating division is strictly monotonic once the gap between the
/// dividends reaches one step below twice the divisor.
pub proof fn lemma_tdiv_strict_mono(x: int, y: int, d: int)
    requires
        d > 0,
        y - x >= 2 * d - 1,
    ensures
        tdiv(x, d) < tdiv(y, d),
{
    if x >= 0 {
        lemma_div_is_ordered(x + d, y, d);
        lemma_div_plus_one(x, d);
        lemma_div_pos_is_pos(x, d);
    } else if y <= 0 {
        lemma_div_is_ordered((-y) + d, -x, d);
        lemma_div_plus_one(-y, d);
        lemma_div_pos_is_pos(-y, d);
        if y == 0 {
            lemma_basic_div(0, d);
        }
    } else {
        lemma_div_pos_is_pos(y, d);
        if -x >= d {
            lemma_div_is_ordered(d, -x, d);
            lemma_div_multiples_vanish(1, d);
        } else {
            lemma_basic_div(-x, d);
            lemma_div_is_ordered(d, y, d);
            lemma_div_multiples_vanish(1, d);
        }
    }
}

/// The normalized value of a signed 16-bit sample: the sample divided by the
/// format's maximum magnitude.
pub open spec fn i16_to_norm(s: i16) -> int {
    tdiv(s * FULL_SCALE, I16_MAX_MAGNITUDE as int)
}

/// The normalized value of an unsigned 16-bit sample: the sample rescaled
/// from `[0, u16::MAX]` onto `[-FULL_SCALE, FULL_SCALE]`.
pub open spec fn u16_to_norm(v: u16) -> int {
    tdiv(v * 2 * FULL_SCALE, U16_SPAN as int) - FULL_SCALE
}

/// Converts one signed 16-bit sample to a normalized sample. The format's
/// zero maps to exact silence.
pub fn i16_to_sample(s: i16) -> (r: i64)
    ensures
        r == i16_to_norm(s),
        valid_sample(r),
        s == 0 ==> r == 0,
{
    let wide: i64 = (s as i64) * FULL_SCALE;
    proof {
        lemma_tdiv_bound(wide as int, I16_MAX_MAGNITUDE as int, FULL_SCALE as int);
    }
    div_trunc(wide, I16_MAX_MAGNITUDE)
}

/// Converts one unsigned 16-bit sample to a normalized sample. The format's
/// lowest value maps to negative full scale and its highest to positive full
/// scale.
pub fn u16_to_sample(v: u16) -> (r: i64)
    ensures
        r == u16_to_norm(v),
        valid_sample(r),
        v == 0 ==> r == -FULL_SCALE,
        v == u16::MAX ==> r == FULL_SCALE,
{
    let wide: i64 = (v as i64) * 2 * FULL_SCALE;
    proof {
        lemma_div_pos_is_pos(wide as int, U16_SPAN as int);
        lemma_div_is_ordered(wide as int, (U16_SPAN * 2 * FULL_SCALE) as int, U16_SPAN as int);
        lemma_div_multiples_vanish((2 * FULL_SCALE) as int, U16_SPAN as int);
    }
    let t = wide / U16_SPAN;
    t - FULL_SCALE
}

/// Conversion of signed 16-bit samples is injective: distinct native samples
/// map to distinct normalized samples.
pub proof fn lemma_i16_to_norm_injective(a: i16, b: i16)
    requires
        a != b,
    ensures
        i16_to_norm(a) != i16_to_norm(b),
{
    if a < b {
        lemma_mul_inequality(a + 1, b as int, FULL_SCALE as int);
        lemma_tdiv_strict_mono(a * FULL_SCALE, b * FULL_SCALE, I16_MAX_MAGNITUDE as int);
    } else {
        lemma_mul_inequality(b + 1, a as int, FULL_SCALE as int);
        lemma_tdiv_strict_mono(b * FULL_SCALE, a * FULL_SCALE, I16_MAX_MAGNITUDE as int);
    }
}

/// Conversion of unsigned 16-bit samples is injective: distinct native
/// samples map to distinct normalized samples.
pub proof fn lemma_u16_to_norm_injective(a: u16, b: u16)
    requires
        a != b,
    ensures
        u16_to_norm(a) != u16_to_norm(b),
{
    if a < b {
        lemma_mul_inequality(a + 1, b as int, (2 * FULL_SCALE) as int);
        lemma_tdiv_strict_mono(a * 2 * FULL_SCALE, b * 2 * FULL_SCALE, U16_SPAN as int);
    } else {
        lemma_mul_inequality(b + 1, a as int, (2 * FULL_SCALE) as int);
        lemma_tdiv_strict_mono(b * 2 * FULL_SCALE, a * 2 * FULL_SCALE, U16_SPAN as int);
    }
}

/// Sum of a sequence of samples.
pub open spec fn sum64(s: Seq<i64>) -> int
    decreases s.len(),
{
    if s.len() == 0 {
        0
    } else {
        sum64(s.drop_last()) + s.last()
    }
}

/// Appending a sample adds it to the sum.
pub proof fn lemma_sum64_push(s: Seq<i64>, x: i64)
    ensures
        sum64(s.push(x)) == sum64(s) + x,
{
    assert(s.push(x).drop_last() =~= s);
}

/// The sum of a constant sequence is the length times the constant.
pub proof fn lemma_sum64_const(s: Seq<i64>, v: i64)
    requires
        forall|i: int| 0 <= i < s.len() ==> s[i] == v,
    ensures
        sum64(s) == s.len() * v,
    decreases s.len(),
{
    if s.len() > 0 {
        lemma_sum64_const(s.drop_last(), v);
        assert((s.len() - 1) * v + v == s.len() * v) by (nonlinear_arith);
    }
}

/// Downmixing equal in-phase channel samples preserves amplitude: the
/// arithmetic mean of any number of copies of one sample is that sample.
pub proof fn lemma_average_preserves_equal(s: Seq<i64>, v: i64)
    requires
        s.len() >= 1,
        forall|i: int| 0 <= i < s.len() ==> s[i] == v,
    ensures
        tdiv(sum64(s), s.len() as int) == v,
{
    lemma_sum64_const(s, v);
    let n = s.len() as int;
    if v >= 0 {
        assert(n * v >= 0) by (nonlinear_arith)
            requires
                n >= 1,
                v >= 0,
        ;
        lemma_div_multiples_vanish(v as int, n);
    } else {
        assert(n * v < 0 && -(n * v) == n * (-v)) by (nonlinear_arith)
            requires
                n >= 1,
                v < 0,
        ;
        lemma_div_multiples_vanish(-(v as int), n);
    }
}

/// Downmixes interleaved multi-channel samples to mono: each group of
/// `channels` consecutive samples becomes their arithmetic mean. A trailing
/// group shorter than `channels` is dropped.
pub fn downmix(data: &Vec<i64>, channels: usize) -> (out: Vec<i64>)
    requires
        1 <= channels <= 65535,
        forall|i: int| 0 <= i < data@.len() ==> valid_sample(data@[i]),
    ensures
        out@.len() == data@.len() as int / channels as int,
        forall|k: int|
            0 <= k < out@.len() ==> out@[k] == tdiv(
                sum64(data@.subrange(k * channels, (k + 1) * channels)),
                channels as int,
            ),
        forall|k: int| 0 <= k < out@.len() ==> valid_sample(out@[k]),
{
    let ghost ch = channels as int;
    let n = data.len() / channels;
    proof {
        lemma_remainder_lower(data@.len() as int, ch);
        lemma_div_pos_is_pos(data@.len() as int, ch);
    }
    let mut out: Vec<i64> = Vec::new();
    let mut k: usize = 0;
    while k < n
        invariant
            1 <= channels <= 65535,
            n == data@.len() as int / ch,
            ch == channels as int,
            n * ch <= data@.len(),
            data@.len() <= usize::MAX,
            forall|i: int| 0 <= i < data@.len() ==> valid_sample(data@[i]),
            0 <= k <= n,
            out@.len() == k,
            forall|j: int|
                0 <= j < k ==> out@[j] == tdiv(
                    sum64(data@.subrange(j * ch, (j + 1) * ch)),
                    ch,
                ),
            forall|j: int| 0 <= j < k ==> valid_sample(out@[j]),
        decreases n - k,
    {
        proof {
            lemma_mul_inequality(k + 1, n as int, ch);
            assert((k + 1) * ch == k * ch + ch) by (nonlinear_arith);
            assert(k * ch + ch <= data@.len());
            assert(k as int * channels as int + channels as int <= data@.len());
        }
        let base = k * channels;
        let mut acc: i64 = 0;
        let mut j: usize = 0;
        while j < channels
            invariant
                1 <= channels <= 65535,
                ch == channels as int,
                base == k as int * ch,
                base + ch <= data@.len(),
                data@.len() <= usize::MAX,
                forall|i: int| 0 <= i < data@.len() ==> valid_sample(data@[i]),
                0 <= j <= channels,
                acc == sum64(data@.subrange(base as int, base + j)),
                -(j * FULL_SCALE) <= acc <= j * FULL_SCALE,
            decreases channels - j,
        {
            let x = data[base + j];
            proof {
                assert(data@.subrange(base as int, base + j + 1) =~= data@.subrange(
                    base as int,
                    base + j,
                ).push(data@[base + j]));
                lemma_sum64_push(data@.subrange(base as int, base + j), data@[base + j]);
            }
            acc = acc + x;
            j += 1;
        }
        proof {
            lemma_tdiv_bound(acc as int, ch, FULL_SCALE as int);
        }
        let avg = div_trunc(acc, channels as i64);
        out.push(avg);
        k += 1;
    }
    out
}

/// The normalized values of a batch of signed 16-bit samples.
pub open spec fn norm_i16_seq(s: Seq<i16>) -> Seq<i64> {
    s.map_values(|x: i16| i16_to_norm(x) as i64)
}

/// The normalized values of a batch of unsigned 16-bit samples.
pub open spec fn norm_u16_seq(s: Seq<u16>) -> Seq<i64> {
    s.map_values(|x: u16| u16_to_norm(x) as i64)
}

/// Converts a batch of interleaved signed 16-bit samples to normalized mono
/// samples: each native sample is normalized, then each group of `channels`
/// is downmixed to its mean.
pub fn normalize_i16(data: &Vec<i16>, channels: usize) -> (out: Vec<i64>)
    requires
        1 <= channels <= 65535,
    ensures
        out@.len() == data@.len() as int / channels as int,
        forall|k: int|
            0 <= k < out@.len() ==> out@[k] == tdiv(
                sum64(norm_i16_seq(data@).subrange(k * channels, (k + 1) * channels)),
                channels as int,
            ),
        forall|k: int| 0 <= k < out@.len() ==> valid_sample(out@[k]),
{
    let mut converted: Vec<i64> = Vec::new();
    let mut i: usize = 0;
    while i < data.len()
        invariant
            0 <= i <= data@.len(),
            converted@.len() == i,
            forall|j: int| 0 <= j < i ==> converted@[j] == norm_i16_seq(data@)[j],
            forall|j: int| 0 <= j < i ==> valid_sample(converted@[j]),
        decreases data@.len() - i,
    {
        converted.push(i16_to_sample(data[i]));
        i += 1;
    }
    proof {
        assert(converted@ =~= norm_i16_seq(data@));
    }
    downmix(&converted, channels)
}

/// Converts a batch of interleaved unsigned 16-bit samples to normalized
/// mono samples: each native sample is normalized, then each group of
/// `channels` is downmixed to its mean.
pub fn normalize_u16(data: &Vec<u16>, channels: usize) -> (out: Vec<i64>)
    requires
        1 <= channels <= 65535,
    ensures
        out@.len() == data@.len() as int / channels as int,
        forall|k: int|
            0 <= k < out@.len() ==> out@[k] == tdiv(
                sum64(norm_u16_seq(data@).subrange(k * channels, (k + 1) * channels)),
                channels as int,
            ),
        forall|k: int| 0 <= k < out@.len() ==> valid_sample(out@[k]),
{
    let mut converted: Vec<i64> = Vec::new();
    let mut i: usize = 0;
    while i < data.len()
        invariant
            0 <= i <= data@.len(),
            converted@.len() == i,
            forall|j: int| 0 <= j < i ==> converted@[j] == norm_u16_seq(data@)[j],
            forall|j: int| 0 <= j < i ==> valid_sample(converted@[j]),
        decreases data@.len() - i,
    {
        converted.push(u16_to_sample(data[i]));
        i += 1;
    }
    proof {
        assert(converted@ =~= norm_u16_seq(data@));
    }
    downmix(&converted, channels)
}

} // verus!
