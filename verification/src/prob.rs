//! Metropolis acceptance probabilities in Q32 fixed point.
//!
//! A probability is a 32-bit binary fraction: the value `p` is stored as
//! `⌊p * 2^32⌋`, and a uniform `u32` draw is a sample in `[0, 1)` at the
//! same scale. The acceptance probability `e^(-ΔE/T)` is computed exactly
//! in integers: write `ΔE/T = q + r/T'` with `T'` the temperature in
//! thousandths, take `e^(-r/T')` from a 13-term alternating series, and
//! scale by `⌊2^32/e⌋` a further `q` times. Every step rounds down, so
//! the result never exceeds one and is one exactly when `ΔE <= 0`.

use vstd::prelude::*;
use vstd::arithmetic::mul::{lemma_mul_inequality, lemma_mul_strict_inequality, lemma_mul_upper_bound};
use vstd::arithmetic::div_mod::{lemma_div_is_ordered, lemma_div_multiples_vanish, lemma_div_nonincreasing, lemma_multiply_divide_lt};

verus! {

/// One, in Q32 fixed point.
pub const Q32_ONE: u64 = 0x1_0000_0000;

/// `⌊2^32 / e⌋`: the factor `e^-1` in Q32 fixed point.
pub const EXP_NEG_ONE_Q32: u64 = 1580030168;

/// Exponent at which the result underflows Q32: `e^-46 * 2^32 < 1`.
pub const EXP_UNDERFLOW: u64 = 46;

/// The product of two Q32 fractions, rounded down.
pub open spec fn mul_q32(a: int, b: int) -> int {
    a * b / (Q32_ONE as int)
}

/// Q32 product, exact in 128 bits and then floored.
fn mulq(a: u64, b: u64) -> (r: u64)
    requires
        a <= Q32_ONE,
        b <= Q32_ONE,
    ensures
        r == mul_q32(a as int, b as int),
        r <= a,
        r <= b,
{
    proof {
        lemma_mul_upper_bound(a as int, Q32_ONE as int, b as int, Q32_ONE as int);
        lemma_mul_inequality(b as int, Q32_ONE as int, a as int);
        lemma_div_is_ordered(a as int * b as int, Q32_ONE as int * a as int, Q32_ONE as int);
        lemma_div_multiples_vanish(a as int, Q32_ONE as int);
        lemma_mul_inequality(a as int, Q32_ONE as int, b as int);
        lemma_div_is_ordered(a as int * b as int, Q32_ONE as int * b as int, Q32_ONE as int);
        lemma_div_multiples_vanish(b as int, Q32_ONE as int);
    }
    (((a as u128) * (b as u128)) / (Q32_ONE as u128)) as u64
}

/// The next series term: the previous term times `t`, divided by `k`.
fn next_term(prev: u64, t: u64, k: u64) -> (r: u64)
    requires
        prev <= Q32_ONE,
        t <= Q32_ONE,
        1 <= k <= 16,
    ensures
        r == mul_q32(prev as int, t as int) / k as int,
        r <= prev,
        r <= t,
    {
    let m = mulq(prev, t);
    proof {
        lemma_div_nonincreasing(m as int, k as int);
    }
    m / k
}

/// `e^(-r/den)` in Q32 fixed point for `0 <= r < den`, by the alternating
/// series `1 - t + t^2/2! - ... - t^13/13!` with `t = r/den` in Q32,
/// every term rounded down.
pub open spec fn spec_exp_frac(r: int, den: int) -> int {
    let t1 = r * (Q32_ONE as int) / den;
    let t2 = mul_q32(t1, t1) / 2;
    let t3 = mul_q32(t2, t1) / 3;
    let t4 = mul_q32(t3, t1) / 4;
    let t5 = mul_q32(t4, t1) / 5;
    let t6 = mul_q32(t5, t1) / 6;
    let t7 = mul_q32(t6, t1) / 7;
    let t8 = mul_q32(t7, t1) / 8;
    let t9 = mul_q32(t8, t1) / 9;
    let t10 = mul_q32(t9, t1) / 10;
    let t11 = mul_q32(t10, t1) / 11;
    let t12 = mul_q32(t11, t1) / 12;
    let t13 = mul_q32(t12, t1) / 13;
    (Q32_ONE as int) - t1 + t2 - t3 + t4 - t5 + t6 - t7 + t8 - t9 + t10 - t11 + t12 - t13
}

/// Computes `spec_exp_frac` exactly.
fn exp_frac(r: u64, den: u64) -> (f: u64)
    requires
        1 <= den <= 0xffff_ffff,
        r < den,
    ensures
        f == spec_exp_frac(r as int, den as int),
        f <= Q32_ONE,
{
    proof {
        lemma_mul_upper_bound(r as int, 0xffff_fffe, Q32_ONE as int, Q32_ONE as int);
        lemma_mul_strict_inequality(r as int, den as int, Q32_ONE as int);
        lemma_multiply_divide_lt(r as int * Q32_ONE as int, den as int, Q32_ONE as int);
    }
    let t1: u64 = ((r as u128) * (Q32_ONE as u128) / (den as u128)) as u64;
    let t2 = next_term(t1, t1, 2);
    let t3 = next_term(t2, t1, 3);
    let t4 = next_term(t3, t1, 4);
    let t5 = next_term(t4, t1, 5);
    let t6 = next_term(t5, t1, 6);
    let t7 = next_term(t6, t1, 7);
    let t8 = next_term(t7, t1, 8);
    let t9 = next_term(t8, t1, 9);
    let t10 = next_term(t9, t1, 10);
    let t11 = next_term(t10, t1, 11);
    let t12 = next_term(t11, t1, 12);
    let t13 = next_term(t12, t1, 13);
    let mut f: u64 = Q32_ONE - t1;
    f = f + (t2 - t3);
    f = f + (t4 - t5);
    f = f + (t6 - t7);
    f = f + (t8 - t9);
    f = f + (t10 - t11);
    f = f + (t12 - t13);
    f
}

/// `x` scaled down by `e^-1` in Q32, `n` times over.
pub open spec fn spec_scale(x: int, n: nat) -> int
    decreases n,
{
    if n == 0 {
        x
    } else {
        mul_q32(spec_scale(x, (n - 1) as nat), EXP_NEG_ONE_Q32 as int)
    }
}

/// The Metropolis acceptance threshold in Q32 fixed point:
/// `⌊2^32 * p⌋` with `p` approximating `e^(-ΔE/T)`, where `de` is the
/// energy difference in whole units and `temp_milli` the temperature in
/// thousandths. A trial is accepted when a uniform `u32` sample falls
/// strictly below the threshold, so a threshold of `2^32` (any
/// `de <= 0`) accepts always.
pub open spec fn spec_threshold(de: int, temp_milli: int) -> int {
    if de <= 0 {
        Q32_ONE as int
    } else {
        let num = de * 1000;
        let q = num / temp_milli;
        let r = num % temp_milli;
        if q >= EXP_UNDERFLOW {
            0
        } else {
            spec_scale(spec_exp_frac(r, temp_milli), q as nat)
        }
    }
}

/// Computes `spec_threshold` exactly.
pub fn threshold_q32(de: i64, temp_milli: u32) -> (th: u64)
    requires
        temp_milli >= 1,
        (de as int) * 1000 <= u64::MAX,
    ensures
        th == spec_threshold(de as int, temp_milli as int),
        th <= Q32_ONE,
        de <= 0 ==> th == Q32_ONE,
{
    if de <= 0 {
        return Q32_ONE;
    }
    let num: u64 = (de as u64) * 1000;
    let den: u64 = temp_milli as u64;
    let q: u64 = num / den;
    let r: u64 = num % den;
    if q >= EXP_UNDERFLOW {
        return 0;
    }
    let mut acc: u64 = exp_frac(r, den);
    let mut i: u64 = 0;
    while i < q
        invariant
            i <= q,
            acc == spec_scale(spec_exp_frac(r as int, den as int), i as nat),
            acc <= Q32_ONE,
        decreases q - i,
    {
        acc = mulq(acc, EXP_NEG_ONE_Q32);
        i = i + 1;
    }
    acc
}

/// Whether one trial is accepted: strictly downhill moves always; uphill
/// moves (and a zero difference) by comparing the Q32 sample against the
/// acceptance threshold, with the stochastic branch disabled when the
/// temperature is not positive.
pub open spec fn spec_accepts(de: int, temp_milli: int, sample: int) -> bool {
    de < 0 || (temp_milli > 0 && sample < spec_threshold(de, temp_milli))
}

/// A trial whose energy difference is not positive is always accepted:
/// strictly downhill moves unconditionally, whatever the temperature, and
/// a zero difference whenever the temperature is positive — the threshold
/// is then a full `2^32`, above every Q32 sample.
pub proof fn lemma_acceptance_nonpositive(de: int, temp_milli: int, sample: int)
    requires
        de <= 0,
        0 <= sample < Q32_ONE,
        de == 0 ==> temp_milli > 0,
    ensures
        spec_accepts(de, temp_milli, sample),
{
}

} // verus!
