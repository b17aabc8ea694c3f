//! Sample-rate conversion by linear interpolation.
//!
//! Positions and lengths are exact integer arithmetic. How two neighbouring
//! samples are blended is left to the caller, who knows the sample type: the
//! blend is a function of the left sample, the right sample and the position
//! between them as a fraction.

use vstd::prelude::*;

verus! {

/// Number of output samples for `len` input samples converted from
/// `src_rate` to `dst_rate`: `len * dst_rate / src_rate`, rounded to the
/// nearest integer, halves up.
pub open spec fn resampled_len(len: nat, src_rate: nat, dst_rate: nat) -> nat {
    if len == 0 || src_rate == 0 || dst_rate == 0 {
        0
    } else if src_rate == dst_rate {
        len
    } else {
        ((len * dst_rate + src_rate / 2) / src_rate) as nat
    }
}

/// Where an output sample lies in the input: between the samples at `left`
/// and `right`, `numerator / denominator` of the way from the first to the
/// second.
#[derive(Debug, Clone, Copy, PartialEq, Eq, Structural)]
pub struct Tap {
    pub left: usize,
    pub right: usize,
    pub numerator: u64,
    pub denominator: u64,
}

/// The largest valid index into `len` samples that does not exceed `index`.
pub open spec fn clamp_index(index: nat, len: nat) -> nat {
    if index < len {
        index
    } else {
        (len - 1) as nat
    }
}

/// The tap of output sample `n`: its source position is `n * src_rate /
/// dst_rate`, whose integer part selects the left sample and whose fractional
/// part is the weight of the right one. Both indices are clamped to the last
/// sample.
pub open spec fn spec_tap(n: nat, len: nat, src_rate: nat, dst_rate: nat) -> Tap {
    Tap {
        left: clamp_index(n * src_rate / dst_rate, len) as usize,
        right: clamp_index(n * src_rate / dst_rate + 1, len) as usize,
        numerator: ((n * src_rate) % dst_rate) as u64,
        denominator: dst_rate as u64,
    }
}

/// Computes [`resampled_len`]; `None` when the result does not fit `usize`.
pub fn output_len(len: usize, src_rate: u32, dst_rate: u32) -> (out: Option<usize>)
    ensures
        match out {
            Some(n) => n == resampled_len(len as nat, src_rate as nat, dst_rate as nat),
            None => resampled_len(len as nat, src_rate as nat, dst_rate as nat) > usize::MAX,
        },
{
    if len == 0 || src_rate == 0 || dst_rate == 0 {
        return Some(0);
    }
    if src_rate == dst_rate {
        return Some(len);
    }
    assert(len * dst_rate <= 0xFFFF_FFFF_FFFF_FFFF * 0xFFFF_FFFF) by (nonlinear_arith)
        requires
            len <= 0xFFFF_FFFF_FFFF_FFFF,
            dst_rate <= 0xFFFF_FFFF,
    ;
    let scaled: u128 = len as u128 * dst_rate as u128 + (src_rate as u128 / 2);
    let wide: u128 = scaled / src_rate as u128;
    if wide > usize::MAX as u128 {
        None
    } else {
        Some(wide as usize)
    }
}

/// Computes the tap of output sample `n` over `len` input samples.
pub fn tap(n: usize, len: usize, src_rate: u32, dst_rate: u32) -> (out: Tap)
    requires
        len > 0,
        dst_rate > 0,
    ensures
        out == spec_tap(n as nat, len as nat, src_rate as nat, dst_rate as nat),
        out.left < len,
        out.right < len,
        out.left <= out.right,
        out.numerator < out.denominator,
{
    assert(n * src_rate <= 0xFFFF_FFFF_FFFF_FFFF * 0xFFFF_FFFF) by (nonlinear_arith)
        requires
            n <= 0xFFFF_FFFF_FFFF_FFFF,
            src_rate <= 0xFFFF_FFFF,
    ;
    let position: u128 = n as u128 * src_rate as u128;
    let index: u128 = position / dst_rate as u128;
    let last: usize = len - 1;
    let left: usize = if index < len as u128 {
        index as usize
    } else {
        last
    };
    let right: usize = if index + 1 < len as u128 {
        (index + 1) as usize
    } else {
        last
    };
    Tap {
        left,
        right,
        numerator: (position % dst_rate as u128) as u64,
        denominator: dst_rate as u64,
    }
}

/// Converts `samples` from `src_rate` to `dst_rate`.
///
/// Empty input or a zero rate gives empty output; equal rates give a copy of
/// the input. Otherwise the output has [`resampled_len`] samples, and output
/// sample `n` is `mix` applied to the two input samples of its tap and to the
/// fraction between them. For linear interpolation `mix(l, r, num, den)` is
/// `l + (r - l) * num / den`.
pub fn resample<S: Copy, F: Fn(S, S, u64, u64) -> S>(
    samples: &[S],
    src_rate: u32,
    dst_rate: u32,
    mix: F,
) -> (out: Vec<S>)
    requires
        resampled_len(samples@.len(), src_rate as nat, dst_rate as nat) <= usize::MAX,
        forall|l: S, r: S, num: u64, den: u64| num < den ==> call_requires(mix, (l, r, num, den)),
    ensures
        out@.len() == resampled_len(samples@.len(), src_rate as nat, dst_rate as nat),
        src_rate == dst_rate && src_rate != 0 ==> out@ == samples@,
        src_rate != dst_rate ==> forall|n: int|
            0 <= n < out@.len() ==> call_ensures(
                mix,
                (
                    samples@[spec_tap(
                        n as nat,
                        samples@.len(),
                        src_rate as nat,
                        dst_rate as nat,
                    ).left as int],
                    samples@[spec_tap(
                        n as nat,
                        samples@.len(),
                        src_rate as nat,
                        dst_rate as nat,
                    ).right as int],
                    spec_tap(n as nat, samples@.len(), src_rate as nat, dst_rate as nat).numerator,
                    dst_rate as u64,
                ),
                #[trigger] out@[n],
            ),
{
    let len = samples.len();
    if len == 0 || src_rate == 0 || dst_rate == 0 {
        return Vec::new();
    }
    if src_rate == dst_rate {
        let mut copy: Vec<S> = Vec::new();
        let mut i: usize = 0;
        while i < len
            invariant
                i <= len,
                len == samples@.len(),
                copy@ == samples@.take(i as int),
            decreases len - i,
        {
            copy.push(samples[i]);
            assert(samples@.take(i + 1) =~= samples@.take(i as int).push(samples@[i as int]));
            i += 1;
        }
        assert(samples@.take(len as int) =~= samples@);
        return copy;
    }
    let count: usize = match output_len(len, src_rate, dst_rate) {
        Some(n) => n,
        None => {
            return Vec::new();
        },
    };
    let mut out: Vec<S> = Vec::new();
    let mut n: usize = 0;
    while n < count
        invariant
            n <= count,
            len == samples@.len(),
            len > 0,
            dst_rate > 0,
            out@.len() == n,
            forall|l: S, r: S, num: u64, den: u64|
                num < den ==> call_requires(mix, (l, r, num, den)),
            forall|k: int|
                0 <= k < n ==> call_ensures(
                    mix,
                    (
                        samples@[spec_tap(k as nat, len as nat, src_rate as nat, dst_rate as nat).left as int],
                        samples@[spec_tap(k as nat, len as nat, src_rate as nat, dst_rate as nat).right as int],
                        spec_tap(k as nat, len as nat, src_rate as nat, dst_rate as nat).numerator,
                        dst_rate as u64,
                    ),
                    #[trigger] out@[k],
                ),
        decreases count - n,
    {
        let t = tap(n, len, src_rate, dst_rate);
        let value = mix(samples[t.left], samples[t.right], t.numerator, t.denominator);
        out.push(value);
        n += 1;
    }
    out
}

/// Converting from 16 kHz down to 8 kHz and back up changes the number of
/// samples by at most one.
pub proof fn law_round_trip_length(len: nat)
    ensures
        resampled_len(resampled_len(len, 16000, 8000), 8000, 16000) - len <= 1,
        len - resampled_len(resampled_len(len, 16000, 8000), 8000, 16000) <= 1,
{
}

/// Halving the rate and doubling it again, at any rate, changes the number
/// of samples by at most one.
pub proof fn law_halve_and_double_length(len: nat, rate: nat)
    requires
        rate > 0,
    ensures
        resampled_len(resampled_len(len, 2 * rate, rate), rate, 2 * rate) - len <= 1,
        len - resampled_len(resampled_len(len, 2 * rate, rate), rate, 2 * rate) <= 1,
{
    if len > 0 {
        let half = resampled_len(len, 2 * rate, rate);
        assert((2 * rate) / 2 == rate);
        assert(half == (len * rate + rate) / (2 * rate));
        assert(half == (len + 1) / 2) by (nonlinear_arith)
            requires
                rate > 0,
                half == (len * rate + rate) / (2 * rate),
        ;
        if half > 0 {
            let back = resampled_len(half, rate, 2 * rate);
            assert(back == (half * (2 * rate) + rate / 2) / rate);
            assert(back == 2 * half) by (nonlinear_arith)
                requires
                    rate > 0,
                    back == (half * (2 * rate) + rate / 2) / rate,
            ;
        }
    }
}

/// Equal rates leave the length unchanged, and an empty input or a zero rate
/// gives length zero.
pub proof fn law_length_edge_cases(len: nat, src_rate: nat, dst_rate: nat)
    ensures
        src_rate == dst_rate && src_rate != 0 ==> resampled_len(len, src_rate, dst_rate) == len,
        len == 0 || src_rate == 0 || dst_rate == 0 ==> resampled_len(len, src_rate, dst_rate)
            == 0,
{
}

} // verus!
