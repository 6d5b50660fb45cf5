//! What each colour stage does to a single sample.
//!
//! A knob, an integer that callers usually keep between 0 and 100, becomes
//! a weight; the weight acts on a sample; the outcome is cut back to a
//! whole sample between 0 and 255. Every arithmetic step is rounded to
//! twenty-four significant bits, so the samples are those of a
//! single-precision computation. No knob is refused: any value
//! has a weight, and an outcome beyond the ends of the range takes the
//! nearer end.

use vstd::prelude::*;
use vstd::arithmetic::power2::{lemma2_to64, pow2};
use crate::precision::{
    lemma_round_monotone,
    lemma_round_ratio_exact,
    lemma_round_ratio_monotone,
    lemma_round_ratio_within,
    lemma_round_whole,
    lemma_round_within,
    round,
    round_quotient,
    round_ratio,
    round_significand,
    UNIT,
};

verus! {

/// The knob value at which a grayscale blend is complete.
pub const FULL_GRAYSCALE: u32 = 100;

/// The knob value at which brightness leaves a sample as it is.
pub const NEUTRAL_BRIGHTNESS: u32 = 50;

/// An upper bound of every weight: 2^66 units.
pub const WEIGHT_LIMIT: u128 = 73786976294838206464;

/// The knob `knob` as a weight, in units: `knob / full`, both the knob and
/// the quotient rounded.
pub open spec fn weight(knob: u32, full: nat) -> nat {
    round_ratio(round_significand(knob as nat) * UNIT as nat, full)
}

/// The sample that a value of `x` units is cut back to: its whole part,
/// and 255 where that is larger.
pub open spec fn as_sample(x: nat) -> u8 {
    if x / (UNIT as nat) >= 255 {
        255u8
    } else {
        (x / (UNIT as nat)) as u8
    }
}

/// The blend of the sample `c` with the gray value `gray` under the weight
/// `w`: `c * (1 - w) + gray * w`, cut back to a sample; 0 where the sum is
/// negative.
pub open spec fn blended_by(c: u8, gray: u8, w: nat) -> u8 {
    let lit = round_significand(gray as nat * w);
    if w <= UNIT {
        let kept = round_significand(c as nat * round_significand((UNIT - w) as nat));
        as_sample(round_significand(kept + lit))
    } else {
        let taken = round_significand(c as nat * round_significand((w - UNIT) as nat));
        if lit > taken {
            as_sample(round_significand((lit - taken) as nat))
        } else {
            0u8
        }
    }
}

/// The sample `c` blended towards `gray` by the knob `grayscale`, whose
/// weight is `grayscale / 100`.
pub open spec fn blended(c: u8, gray: u8, grayscale: u32) -> u8 {
    blended_by(c, gray, weight(grayscale, FULL_GRAYSCALE as nat))
}

/// The sample `c` scaled by the factor `w`.
pub open spec fn scaled_by(c: u8, w: nat) -> u8 {
    as_sample(round_significand(c as nat * w))
}

/// The sample `c` scaled by the knob `brightness`, whose factor is
/// `brightness / 50`.
pub open spec fn scaled(c: u8, brightness: u32) -> u8 {
    scaled_by(c, weight(brightness, NEUTRAL_BRIGHTNESS as nat))
}

/// The sample `c` under the knob `threshold`: kept where it reaches the
/// cutoff, five halves of the knob, and 0 below it.
pub open spec fn cut(c: u8, threshold: u32) -> u8 {
    if 2 * c >= 5 * threshold {
        c
    } else {
        0u8
    }
}

/// The weights of the knob values that the stages treat specially.
pub proof fn lemma_weights()
    ensures
        weight(0, 100) == 0,
        weight(100, 100) == UNIT,
        weight(0, 50) == 0,
        weight(50, 50) == UNIT,
        weight(100, 50) == 2 * UNIT,
{
    lemma2_to64();
    lemma_round_whole(0);
    lemma_round_whole(50);
    lemma_round_whole(100);
    assert(pow2(30) == UNIT);
    lemma_round_ratio_exact(100, 0, 0);
    lemma_round_ratio_exact(50, 0, 0);
    lemma_round_ratio_exact(100, 1, 30);
    lemma_round_ratio_exact(50, 1, 30);
    lemma_round_ratio_exact(50, 2, 30);
}

/// A blend of weight nothing leaves every sample as it is.
pub proof fn lemma_blend_none(c: u8, gray: u8)
    ensures
        blended(c, gray, 0) == c,
{
    lemma_weights();
    lemma_round_whole(0);
    lemma_round_whole(1);
    lemma_round_whole(c as nat);
    assert(gray as nat * 0 == 0);
    assert(c as nat * UNIT as nat / (UNIT as nat) == c);
}

/// A complete blend replaces every sample by the gray value.
pub proof fn lemma_blend_full(c: u8, gray: u8)
    ensures
        blended(c, gray, 100) == gray,
{
    lemma_weights();
    lemma_round_whole(0);
    lemma_round_whole(gray as nat);
    assert(c as nat * 0 == 0);
    assert(gray as nat * UNIT as nat / (UNIT as nat) == gray);
}

/// The neutral brightness leaves every sample as it is.
pub proof fn lemma_scale_neutral(c: u8)
    ensures
        scaled(c, 50) == c,
{
    lemma_weights();
    lemma_round_whole(c as nat);
    assert(c as nat * UNIT as nat / (UNIT as nat) == c);
}

/// Brightness 100 doubles a sample, up to 255.
pub proof fn lemma_scale_double(c: u8)
    ensures
        scaled(c, 100) == if 2 * c >= 255 { 255 } else { 2 * c },
{
    lemma_weights();
    lemma_round_whole(2 * c as nat);
    assert(c as nat * (2 * UNIT as nat) == (2 * c as nat) * UNIT as nat);
    assert((2 * c as nat) * UNIT as nat / (UNIT as nat) == 2 * c);
}

/// Brightness 0 turns every sample to 0.
pub proof fn lemma_scale_zero(c: u8)
    ensures
        scaled(c, 0) == 0,
{
    lemma_weights();
    lemma_round_whole(0);
    assert(c as nat * 0 == 0);
}

/// Threshold 0 keeps every sample.
pub proof fn lemma_cut_none(c: u8)
    ensures
        cut(c, 0) == c,
{
}

/// `x` itself up to 255, and 255 beyond.
pub open spec fn capped(x: int) -> int {
    if x >= 255 {
        255
    } else {
        x
    }
}

/// What moves a factor by at most `bound` moves its product with a sample
/// by at most 255 times as much.
proof fn lemma_sample_times(c: int, x: int, y: int, bound: int)
    by (nonlinear_arith)
    requires
        0 <= c <= 255,
        -bound <= x - y <= bound,
    ensures
        -255 * bound <= c * x - c * y <= 255 * bound,
{
}

/// Within the domain of the knob, rounding costs a blend at most its last
/// level: the blended sample is the whole part of the exact blend
/// `(c * (100 - grayscale) + gray * grayscale) / 100`, except that where
/// the exact blend is itself whole, it may be one less.
pub proof fn lemma_blend_near_exact(c: u8, gray: u8, grayscale: u32)
    requires
        grayscale <= 100,
    ensures
        ({
            let total = c * (100 - grayscale) + gray * grayscale;
            let got = blended(c, gray, grayscale);
            if total % 100 == 0 {
                got == total / 100 || got == total / 100 - 1
            } else {
                got == total / 100
            }
        }),
{
    let g = grayscale as int;
    let total = c * (100 - g) + gray * g;
    if grayscale == 0 {
        lemma_blend_none(c, gray);
        assert(total == 100 * c) by (nonlinear_arith)
            requires
                total == c * (100 - g) + gray * g,
                g == 0,
        ;
    } else if grayscale == 100 {
        lemma_blend_full(c, gray);
        assert(total == 100 * gray) by (nonlinear_arith)
            requires
                total == c * (100 - g) + gray * g,
                g == 100,
        ;
    } else {
        lemma2_to64();
        lemma_round_whole(g as nat);
        let u: int = 1073741824;
        assert(u == UNIT);
        let n = g * u;
        let w = round_ratio(n as nat, 100) as int;
        assert(w == weight(grayscale, 100));
        lemma_round_ratio_within(n as nat, 100, 6);
        assert(-3200 <= w * 100 - n <= 3200);
        assert(0 < w < u);
        let om = round_significand((u - w) as nat) as int;
        lemma_round_within((u - w) as nat, 6);
        assert(-32 <= om - (u - w) <= 32);
        let a = c * om;
        assert(0 <= a <= 255 * (u + 32)) by (nonlinear_arith)
            requires
                a == c * om,
                0 <= c <= 255,
                0 <= om <= u + 32,
        ;
        let kept = round_significand(a as nat) as int;
        lemma_round_within(a as nat, 14);
        let b = gray * w;
        assert(0 <= b <= 255 * u) by (nonlinear_arith)
            requires
                b == gray * w,
                0 <= gray <= 255,
                0 <= w <= u,
        ;
        let lit = round_significand(b as nat) as int;
        lemma_round_within(b as nat, 14);
        let sum = kept + lit;
        let s = round_significand(sum as nat) as int;
        lemma_round_within(sum as nat, 15);
        assert(blended(c, gray, grayscale) == as_sample(s as nat));
        // the exact shares, a hundredfold
        let share = (100 - g) * u;
        assert(-6400 <= 100 * om - share <= 6400);
        lemma_sample_times(c as int, 100 * om, share, 6400);
        lemma_sample_times(gray as int, 100 * w, n, 3200);
        assert(c * (100 * om) == 100 * a && c * share == (c * (100 - g)) * u && gray * (100 * w)
            == 100 * b && gray * n == (gray * g) * u && total * u == (c * (100 - g)) * u + (gray
            * g) * u) by (nonlinear_arith)
            requires
                a == c * om,
                b == gray * w,
                share == (100 - g) * u,
                n == g * u,
                total == c * (100 - g) + gray * g,
        ;
        assert(-5724800 <= 100 * s - total * u <= 5724800);
        assert(0 <= total <= 25500) by (nonlinear_arith)
            requires
                total == c * (100 - g) + gray * g,
                0 <= c <= 255,
                0 <= gray <= 255,
                0 < g < 100,
        ;
    }
}

/// Within the domain of the knob, rounding costs a scaled sample at most
/// its last level: it is the whole part of the exact product
/// `c * brightness / 50`, up to 255, except that where the exact product is
/// itself whole, it may be one less.
pub proof fn lemma_scale_near_exact(c: u8, brightness: u32)
    requires
        brightness <= 100,
    ensures
        ({
            let total = c * brightness;
            let got = scaled(c, brightness);
            if total % 50 == 0 {
                got == capped(total / 50) || (total >= 50 && got == capped(total / 50 - 1))
            } else {
                got == capped(total / 50)
            }
        }),
{
    lemma2_to64();
    let k = brightness as int;
    let total = c * k;
    lemma_round_whole(k as nat);
    let u: int = 1073741824;
    assert(u == UNIT);
    let n = k * u;
    let f = round_ratio(n as nat, 50) as int;
    assert(f == weight(brightness, 50));
    lemma_round_ratio_within(n as nat, 50, 8);
    assert(-6400 <= f * 50 - n <= 6400);
    let p = c * f;
    assert(0 <= p <= 255 * (2 * u + 128)) by (nonlinear_arith)
        requires
            p == c * f,
            0 <= c <= 255,
            0 <= f <= 2 * u + 128,
    ;
    let rounded = round_significand(p as nat) as int;
    lemma_round_within(p as nat, 15);
    assert(scaled(c, brightness) == as_sample(rounded as nat));
    lemma_sample_times(c as int, 50 * f, n, 6400);
    assert(c * (50 * f) == 50 * p && c * n == total * u) by (nonlinear_arith)
        requires
            p == c * f,
            n == k * u,
            total == c * k,
    ;
    assert(-2451200 <= 50 * rounded - total * u <= 2451200);
    assert(0 <= total <= 25500) by (nonlinear_arith)
        requires
            total == c * k,
            0 <= c <= 255,
            0 <= k <= 100,
    ;
}

/// Brightness keeps the order of knobs and of samples: a higher knob or a
/// lighter sample never gives a darker result.
pub proof fn lemma_scale_monotone(c1: u8, b1: u32, c2: u8, b2: u32)
    requires
        c1 <= c2,
        b1 <= b2,
    ensures
        scaled(c1, b1) <= scaled(c2, b2),
{
    lemma_round_monotone(b1 as nat, b2 as nat);
    let k1 = round_significand(b1 as nat) * UNIT as nat;
    let k2 = round_significand(b2 as nat) * UNIT as nat;
    lemma_round_ratio_monotone(k1, k2, 50);
    let f1 = weight(b1, 50);
    let f2 = weight(b2, 50);
    assert(c1 as nat * f1 <= c2 as nat * f2) by (nonlinear_arith)
        requires
            c1 <= c2,
            f1 <= f2,
    ;
    lemma_round_monotone(c1 as nat * f1, c2 as nat * f2);
}

/// The weight of the knob `knob` over `full`.
fn weight_of(knob: u32, full: u8) -> (w: u128)
    requires
        full > 0,
    ensures
        w == weight(knob, full as nat),
        w <= WEIGHT_LIMIT,
{
    let whole = round(knob as u128);
    round_quotient(whole * UNIT, full as u128)
}

/// Cuts a value of `x` units back to a sample.
pub fn sample_of(x: u128) -> (sample: u8)
    ensures
        sample == as_sample(x as nat),
{
    let whole = x / UNIT;
    if whole >= 255 {
        255
    } else {
        whole as u8
    }
}

/// A grayscale knob made ready for use on many samples: its weight, and
/// the rounded distance of that weight from one, which is the share of a
/// blend that the sample itself keeps or, past one, gives up.
#[derive(Debug)]
pub struct Blend {
    weight: u128,
    rest: u128,
}

impl Blend {
    #[verifier::type_invariant]
    spec fn inv(self) -> bool {
        &&& self.weight <= WEIGHT_LIMIT
        &&& self.weight <= UNIT ==> self.rest == round_significand((UNIT - self.weight) as nat)
        &&& self.weight > UNIT ==> self.rest == round_significand((self.weight - UNIT) as nat)
        &&& self.rest <= 2 * WEIGHT_LIMIT + 1
    }

    /// The weight of the blend, in units.
    pub closed spec fn weight(self) -> nat {
        self.weight as nat
    }

    /// The blend of the knob `grayscale`.
    pub fn new(grayscale: u32) -> (blend: Blend)
        ensures
            blend.weight() == weight(grayscale, FULL_GRAYSCALE as nat),
    {
        let weight = weight_of(grayscale, 100);
        let rest = if weight <= UNIT {
            round(UNIT - weight)
        } else {
            round(weight - UNIT)
        };
        Blend { weight, rest }
    }

    /// Blends the sample `c` with the gray value `gray`.
    pub fn mix(&self, c: u8, gray: u8) -> (sample: u8)
        ensures
            sample == blended_by(c, gray, self.weight()),
    {
        proof {
            use_type_invariant(self);
        }
        assert(gray * self.weight <= 255 * WEIGHT_LIMIT && c * self.rest <= 255 * (2
            * WEIGHT_LIMIT + 1)) by (nonlinear_arith)
            requires
                gray <= 255,
                c <= 255,
                self.weight <= WEIGHT_LIMIT,
                self.rest <= 2 * WEIGHT_LIMIT + 1,
        ;
        let lit = round(gray as u128 * self.weight);
        let own = round(c as u128 * self.rest);
        if self.weight <= UNIT {
            sample_of(round(own + lit))
        } else if lit > own {
            sample_of(round(lit - own))
        } else {
            0
        }
    }
}

/// A brightness knob made ready for use on many samples: its factor.
#[derive(Debug)]
pub struct Gain {
    factor: u128,
}

impl Gain {
    #[verifier::type_invariant]
    spec fn inv(self) -> bool {
        self.factor <= WEIGHT_LIMIT
    }

    /// The factor, in units.
    pub closed spec fn factor(self) -> nat {
        self.factor as nat
    }

    /// The gain of the knob `brightness`.
    pub fn new(brightness: u32) -> (gain: Gain)
        ensures
            gain.factor() == weight(brightness, NEUTRAL_BRIGHTNESS as nat),
    {
        Gain { factor: weight_of(brightness, 50) }
    }

    /// Scales the sample `c`.
    pub fn scale(&self, c: u8) -> (sample: u8)
        ensures
            sample == scaled_by(c, self.factor()),
    {
        proof {
            use_type_invariant(self);
        }
        assert(c * self.factor <= 255 * WEIGHT_LIMIT) by (nonlinear_arith)
            requires
                c <= 255,
                self.factor <= WEIGHT_LIMIT,
        ;
        sample_of(round(c as u128 * self.factor))
    }
}

/// Blends the sample `c` towards `gray` by the knob `grayscale`: not at
/// all at 0, all the way at 100, and between them to the whole part of
/// `(c * (100 - grayscale) + gray * grayscale) / 100`, or to one less where
/// that fraction is whole.
pub fn blend_channel(c: u8, gray: u8, grayscale: u32) -> (sample: u8)
    ensures
        sample == blended(c, gray, grayscale),
        grayscale == 0 ==> sample == c,
        grayscale == 100 ==> sample == gray,
        grayscale <= 100 ==> {
            let total = c * (100 - grayscale) + gray * grayscale;
            if total % 100 == 0 {
                sample == total / 100 || sample == total / 100 - 1
            } else {
                sample == total / 100
            }
        },
{
    proof {
        lemma_blend_none(c, gray);
        lemma_blend_full(c, gray);
        if grayscale <= 100 {
            lemma_blend_near_exact(c, gray, grayscale);
        }
    }
    Blend::new(grayscale).mix(c, gray)
}

/// Scales the sample `c` by the knob `brightness`: to 0 at 0, not at all
/// at 50, to its double, up to 255, at 100, and between them to the whole
/// part of `c * brightness / 50`, up to 255, or to one less where that
/// fraction is whole.
pub fn scale_channel(c: u8, brightness: u32) -> (sample: u8)
    ensures
        sample == scaled(c, brightness),
        brightness == 0 ==> sample == 0,
        brightness == 50 ==> sample == c,
        brightness == 100 ==> sample == if 2 * c >= 255 { 255 } else { 2 * c },
        brightness <= 100 ==> {
            let total = c * brightness;
            if total % 50 == 0 {
                sample == capped(total / 50) || (total >= 50 && sample == capped(total / 50 - 1))
            } else {
                sample == capped(total / 50)
            }
        },
{
    proof {
        lemma_scale_zero(c);
        lemma_scale_neutral(c);
        lemma_scale_double(c);
        if brightness <= 100 {
            lemma_scale_near_exact(c, brightness);
        }
    }
    Gain::new(brightness).scale(c)
}

/// Keeps the sample `c` where it reaches the cutoff of the knob
/// `threshold`, and gives 0 below it.
pub fn cut_channel(c: u8, threshold: u32) -> (sample: u8)
    ensures
        sample == cut(c, threshold),
        sample == if 2 * c >= 5 * threshold { c } else { 0 },
{
    if 2 * (c as u64) >= 5 * (threshold as u64) {
        c
    } else {
        0
    }
}

} // verus!
