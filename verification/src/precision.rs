//! Rounding to twenty-four significant bits.
//!
//! The colour stages weigh channel values by fractions such as 37/100.
//! Their results are fixed to those of binary arithmetic that keeps
//! twenty-four significant bits after every operation and resolves ties
//! towards an even last bit: single precision. Here that arithmetic is
//! carried out exactly, on natural numbers that count units of 2^-30. A
//! knob of 1 or more has a weight of at least a hundredth, which in single
//! precision is a whole number of such units, as is every product, sum and
//! difference the stages form from it; so rounding a value is rounding a
//! natural number to twenty-four significant bits. The crate's tests hold
//! the outcome against the processor's own single-precision arithmetic.

use vstd::prelude::*;
use vstd::arithmetic::div_mod::{
    lemma_div_denominator,
    lemma_div_is_ordered,
    lemma_div_multiples_vanish,
    lemma_fundamental_div_mod,
    lemma_fundamental_div_mod_converse,
};
use vstd::arithmetic::power2::{
    lemma2_to64,
    lemma_pow2_adds,
    lemma_pow2_pos,
    lemma_pow2_strictly_increases,
    lemma_pow2_unfold,
    pow2,
};

verus! {

/// One, counted in units of 2^-30.
pub const UNIT: u128 = 1073741824;

/// The least number that does not fit in twenty-four bits.
pub const SIGNIFICAND_LIMIT: u128 = 16777216;

/// The largest operand the rounding functions take: 2^126.
pub const OPERAND_LIMIT: u128 = 0x4000_0000_0000_0000_0000_0000_0000_0000;

/// How many low bits of `n` lie beyond its twenty-four leading ones.
pub open spec fn excess_bits(n: nat) -> nat
    decreases n,
{
    if n < SIGNIFICAND_LIMIT {
        0
    } else {
        1 + excess_bits(n / 2)
    }
}

/// The fraction `n / d` rounded to twenty-four significant bits: the
/// nearest multiple of `2^s`, where `s` is the number of excess bits of the
/// whole part of `n / d`; of two equally near multiples the even one.
pub open spec fn round_ratio(n: nat, d: nat) -> nat
    recommends
        d > 0,
{
    let s = excess_bits(n / d);
    let step = d * pow2(s);
    let q = n / step;
    let r = n % step;
    if 2 * r > step || (2 * r == step && q % 2 == 1) {
        (q + 1) * pow2(s)
    } else {
        q * pow2(s)
    }
}

/// `n` rounded to twenty-four significant bits, ties to even.
pub open spec fn round_significand(n: nat) -> nat {
    round_ratio(n, 1)
}

/// A number of fewer than twenty-five bits, shifted left by `k`, has at
/// most `k` excess bits.
pub proof fn lemma_excess_bits_of_shifted(m: nat, k: nat)
    requires
        m < SIGNIFICAND_LIMIT,
    ensures
        excess_bits(m * pow2(k)) <= k,
    decreases k,
{
    let v = m * pow2(k);
    if k == 0 {
        lemma2_to64();
        assert(v == m);
    } else if v >= SIGNIFICAND_LIMIT {
        let half = m * pow2((k - 1) as nat);
        lemma_pow2_unfold(k);
        assert(v == 2 * half) by (nonlinear_arith)
            requires
                v == m * pow2(k),
                half == m * pow2((k - 1) as nat),
                pow2(k) == 2 * pow2((k - 1) as nat),
        ;
        assert(v / 2 == half);
        lemma_excess_bits_of_shifted(m, (k - 1) as nat);
    }
}

/// Rounding leaves a fraction unchanged when its value has at most
/// twenty-four significant bits: `d * (m * 2^k) / d` rounds to `m * 2^k`.
pub proof fn lemma_round_ratio_exact(d: nat, m: nat, k: nat)
    requires
        d > 0,
        m < SIGNIFICAND_LIMIT,
    ensures
        round_ratio(d * (m * pow2(k)), d) == m * pow2(k),
{
    let v = m * pow2(k);
    let n = d * v;
    lemma_div_multiples_vanish(v as int, d as int);
    assert(n / d == v);
    let s = excess_bits(v);
    lemma_excess_bits_of_shifted(m, k);
    let rest = (k - s) as nat;
    lemma_pow2_adds(s, rest);
    lemma_pow2_pos(s);
    let step = d * pow2(s);
    let q = m * pow2(rest);
    assert(step > 0) by (nonlinear_arith)
        requires
            step == d * pow2(s),
            d > 0,
            pow2(s) > 0,
    ;
    assert(n == q * step && v == q * pow2(s)) by (nonlinear_arith)
        requires
            n == d * v,
            v == m * pow2(k),
            pow2(k) == pow2(s) * pow2(rest),
            step == d * pow2(s),
            q == m * pow2(rest),
    ;
    lemma_fundamental_div_mod_converse(n as int, step as int, q as int, 0);
}

/// Rounding leaves a number of at most twenty-four significant bits
/// unchanged.
pub proof fn lemma_round_significand_exact(m: nat, k: nat)
    requires
        m < SIGNIFICAND_LIMIT,
    ensures
        round_significand(m * pow2(k)) == m * pow2(k),
{
    lemma_round_ratio_exact(1, m, k);
    assert(1 * (m * pow2(k)) == m * pow2(k));
}

/// A whole number `m` of fewer than twenty-five bits, counted in units,
/// rounds to itself.
pub proof fn lemma_round_whole(m: nat)
    requires
        m < SIGNIFICAND_LIMIT,
    ensures
        round_significand(m * UNIT as nat) == m * UNIT,
        round_significand(m) == m,
{
    lemma2_to64();
    lemma_round_significand_exact(m, 30);
    lemma_round_significand_exact(m, 0);
    assert(m * pow2(0) == m);
}

/// A number below `2^(24 + k)` has at most `k` excess bits.
pub proof fn lemma_excess_bits_bound(n: nat, k: nat)
    requires
        n < SIGNIFICAND_LIMIT * pow2(k),
    ensures
        excess_bits(n) <= k,
    decreases k,
{
    if n >= SIGNIFICAND_LIMIT {
        lemma2_to64();
        assert(k > 0);
        lemma_pow2_unfold(k);
        assert(n / 2 < SIGNIFICAND_LIMIT * pow2((k - 1) as nat));
        lemma_excess_bits_bound(n / 2, (k - 1) as nat);
    }
}

/// Rounding moves a fraction by at most half a step: with `s` the number
/// of excess bits of the whole part of `n / d`, the rounded value times
/// `d` differs from `n` by at most `d * 2^s / 2`.
pub proof fn lemma_round_ratio_error(n: nat, d: nat)
    requires
        d > 0,
    ensures
        -(d * pow2(excess_bits(n / d))) <= 2 * (round_ratio(n, d) * d - n) <= d * pow2(
            excess_bits(n / d),
        ),
{
    let s = excess_bits(n / d);
    let unit = pow2(s);
    lemma_pow2_pos(s);
    let step = d * unit;
    assert(step > 0) by (nonlinear_arith)
        requires
            step == d * unit,
            d > 0,
            unit > 0,
    ;
    let q = n / step;
    let r = n % step;
    lemma_fundamental_div_mod(n as int, step as int);
    assert(q * unit * d == step * q && (q + 1) * unit * d == step * q + step)
        by (nonlinear_arith)
        requires
            step == d * unit,
    ;
}

/// Rounding a fraction whose whole part is below `2^(24 + k)` moves it by
/// at most `2^k / 2`.
pub proof fn lemma_round_ratio_within(n: nat, d: nat, k: nat)
    requires
        d > 0,
        n / d < SIGNIFICAND_LIMIT * pow2(k),
    ensures
        -(d * pow2(k)) <= 2 * (round_ratio(n, d) * d - n) <= d * pow2(k),
{
    let s = excess_bits(n / d);
    lemma_excess_bits_bound(n / d, k);
    lemma_round_ratio_error(n, d);
    if s < k {
        lemma_pow2_strictly_increases(s, k);
    }
    assert(d * pow2(s) <= d * pow2(k)) by (nonlinear_arith)
        requires
            pow2(s) <= pow2(k),
            d > 0,
    ;
}

/// Rounding a number below `2^(24 + k)` moves it by at most `2^k / 2`.
pub proof fn lemma_round_within(n: nat, k: nat)
    requires
        n < SIGNIFICAND_LIMIT * pow2(k),
    ensures
        -pow2(k) <= 2 * (round_significand(n) - n) <= pow2(k),
{
    lemma_round_ratio_within(n, 1, k);
    assert(round_ratio(n, 1) * 1 == round_ratio(n, 1));
}

/// A number with `s` excess bits lies below `2^(24 + s)`, and where `s` is
/// not 0, at or above `2^(23 + s)`.
pub proof fn lemma_excess_bits_range(n: nat)
    ensures
        n < SIGNIFICAND_LIMIT * pow2(excess_bits(n)),
        excess_bits(n) > 0 ==> 8388608 * pow2(excess_bits(n)) <= n,
    decreases n,
{
    lemma2_to64();
    if n >= SIGNIFICAND_LIMIT {
        let below = excess_bits(n / 2);
        lemma_excess_bits_range(n / 2);
        lemma_pow2_unfold(below + 1);
        assert(excess_bits(n) == below + 1);
    }
}

/// Of two numbers the larger has no fewer excess bits.
pub proof fn lemma_excess_bits_monotone(a: nat, b: nat)
    requires
        a <= b,
    ensures
        excess_bits(a) <= excess_bits(b),
{
    let sa = excess_bits(a);
    let sb = excess_bits(b);
    lemma_excess_bits_range(a);
    lemma_excess_bits_range(b);
    if sa > sb {
        if sb + 1 < sa {
            lemma_pow2_strictly_increases(sb + 1, sa);
        }
        lemma_pow2_unfold(sb + 1);
        assert(8388608 * pow2(sa) >= 8388608 * pow2(sb + 1)) by (nonlinear_arith)
            requires
                pow2(sa) >= pow2(sb + 1),
        ;
    }
}

/// Rounding keeps the order of fractions over one divisor.
pub proof fn lemma_round_ratio_monotone(a: nat, b: nat, d: nat)
    requires
        a <= b,
        d > 0,
    ensures
        round_ratio(a, d) <= round_ratio(b, d),
{
    let wa = a / d;
    let wb = b / d;
    lemma_div_is_ordered(a as int, b as int, d as int);
    lemma_excess_bits_monotone(wa, wb);
    let sa = excess_bits(wa);
    let sb = excess_bits(wb);
    let pa = pow2(sa);
    let pb = pow2(sb);
    lemma_pow2_pos(sa);
    lemma_pow2_pos(sb);
    lemma_excess_bits_range(wa);
    lemma_excess_bits_range(wb);
    let qa = a / (d * pa);
    let qb = b / (d * pb);
    lemma_div_denominator(a as int, d as int, pa as int);
    lemma_div_denominator(b as int, d as int, pb as int);
    assert(qa == wa / pa && qb == wb / pb);
    lemma_fundamental_div_mod(wa as int, pa as int);
    lemma_fundamental_div_mod(wb as int, pb as int);
    // the rounded values lie between the multiples below and above
    let ra = round_ratio(a, d);
    let rb = round_ratio(b, d);
    assert(qa * pa <= ra <= (qa + 1) * pa) by (nonlinear_arith)
        requires
            ra == qa * pa || ra == (qa + 1) * pa,
            pa > 0,
    ;
    assert(qb * pb <= rb <= (qb + 1) * pb) by (nonlinear_arith)
        requires
            rb == qb * pb || rb == (qb + 1) * pb,
            pb > 0,
    ;
    if sa < sb {
        if sa + 1 < sb {
            lemma_pow2_strictly_increases(sa + 1, sb);
        }
        lemma_pow2_unfold(sa + 1);
        assert(qa < 16777216 && qb >= 8388608) by (nonlinear_arith)
            requires
                wa == pa * qa + (wa % pa),
                wb == pb * qb + (wb % pb),
                0 <= wa % pa,
                0 <= wb % pb < pb,
                wa < 16777216 * pa,
                8388608 * pb <= wb,
                pa > 0,
                pb > 0,
        ;
        assert((qa + 1) * pa <= qb * pb) by (nonlinear_arith)
            requires
                qa < 16777216,
                qb >= 8388608,
                pb >= 2 * pa,
                pa > 0,
        ;
    } else {
        let step = d * pa;
        assert(step > 0) by (nonlinear_arith)
            requires
                step == d * pa,
                d > 0,
                pa > 0,
        ;
        lemma_div_is_ordered(a as int, b as int, step as int);
        lemma_fundamental_div_mod(a as int, step as int);
        lemma_fundamental_div_mod(b as int, step as int);
        if qa < qb {
            assert((qa + 1) * pa <= qb * pb) by (nonlinear_arith)
                requires
                    qa + 1 <= qb,
                    pa == pb,
                    pa > 0,
            ;
        } else {
            assert(d * pb == step);
            assert(step * qa == step * qb);
            assert(a % step <= b % step);
        }
    }
}

/// Rounding keeps the order of numbers.
pub proof fn lemma_round_monotone(a: nat, b: nat)
    requires
        a <= b,
    ensures
        round_significand(a) <= round_significand(b),
{
    lemma_round_ratio_monotone(a, b, 1);
}

/// Rounds the fraction `n / d` to twenty-four significant bits, ties to
/// even.
pub fn round_quotient(n: u128, d: u128) -> (rounded: u128)
    requires
        0 < d <= OPERAND_LIMIT,
        n <= OPERAND_LIMIT,
    ensures
        rounded == round_ratio(n as nat, d as nat),
        rounded <= 2 * n + 1,
{
    let whole: u128 = n / d;
    let mut unit: u128 = 1;
    let mut lead: u128 = whole;
    let ghost mut s: nat = 0;
    proof {
        lemma2_to64();
    }
    while lead >= SIGNIFICAND_LIMIT
        invariant
            unit == pow2(s),
            unit >= 1,
            excess_bits(whole as nat) == s + excess_bits(lead as nat),
            unit * lead <= whole,
            unit == 1 || unit * 8388608 <= whole,
        decreases lead,
    {
        proof {
            lemma_pow2_unfold(s + 1);
            assert(unit * 16777216 <= unit * lead && 2 * unit * (lead / 2) <= unit * lead)
                by (nonlinear_arith)
                requires
                    lead >= 16777216,
                    unit >= 1,
            ;
            s = s + 1;
        }
        lead = lead / 2;
        unit = unit * 2;
    }
    proof {
        lemma_fundamental_div_mod(n as int, d as int);
        assert((d * unit <= n || unit == 1) && d * unit >= 1) by (nonlinear_arith)
            requires
                unit == 1 || unit * 8388608 <= whole,
                n == d * whole + (n % d),
                n % d >= 0,
                d > 0,
                unit >= 1,
        ;
    }
    let step: u128 = d * unit;
    let q: u128 = n / step;
    let r: u128 = n % step;
    proof {
        lemma_fundamental_div_mod(n as int, step as int);
        assert(q * unit <= n && unit <= step) by (nonlinear_arith)
            requires
                n == step * q + r,
                r >= 0,
                step == d * unit,
                d >= 1,
                unit >= 1,
                q >= 0,
        ;
        assert((q + 1) * unit == q * unit + unit) by (nonlinear_arith);
    }
    if 2 * r > step || (2 * r == step && q % 2 == 1) {
        (q + 1) * unit
    } else {
        q * unit
    }
}

/// Rounds `n` to twenty-four significant bits, ties to even.
pub fn round(n: u128) -> (rounded: u128)
    requires
        n <= OPERAND_LIMIT,
    ensures
        rounded == round_significand(n as nat),
        rounded <= 2 * n + 1,
{
    round_quotient(n, 1)
}

} // verus!
