//! Fixed-point scaling of a step's deltas by a sensitivity.
//!
//! Deltas and sensitivities are held in thousandths, so that `1000` stands
//! for one pixel and for a sensitivity of `1.0`. A scaled delta is the exact
//! product, rounded to the nearest whole pixel.

use vstd::arithmetic::div_mod::lemma_fundamental_div_mod;
use vstd::arithmetic::div_mod::lemma_fundamental_div_mod_converse;
use vstd::prelude::*;

verus! {

/// Thousandths that make up one whole.
pub const UNITS: i64 = 1000;

/// The smallest sensitivity, `0.1`, in thousandths.
pub const MIN_SENSITIVITY: u16 = 100;

/// The largest sensitivity, `2.0`, in thousandths.
pub const MAX_SENSITIVITY: u16 = 2000;

/// The sensitivity `1.0`, in thousandths.
pub const UNIT_SENSITIVITY: u16 = 1000;

/// The quotient `num / den` rounded to the nearest integer, a tie going
/// away from zero.
pub open spec fn round_div(num: int, den: int) -> int
    recommends
        den > 0,
{
    if num >= 0 {
        (2 * num + den) / (2 * den)
    } else {
        -((2 * (-num) + den) / (2 * den))
    }
}

/// A delta in thousandths of a pixel times a sensitivity in thousandths,
/// in whole pixels.
pub open spec fn scaled(delta: int, sensitivity: int) -> int {
    round_div(delta * sensitivity, UNITS * UNITS)
}

/// `raw` brought into the range of valid sensitivities.
pub open spec fn clamp_sensitivity(raw: int) -> int {
    if raw < MIN_SENSITIVITY {
        MIN_SENSITIVITY as int
    } else if raw > MAX_SENSITIVITY {
        MAX_SENSITIVITY as int
    } else {
        raw
    }
}

/// A sensitivity between `0.1` and `2.0`, in thousandths.
#[derive(Clone, Copy, Debug, PartialEq, Eq)]
pub struct Sensitivity {
    thousandths: u16,
}

impl Sensitivity {
    /// The sensitivity in thousandths.
    pub closed spec fn value(self) -> int {
        self.thousandths as int
    }

    /// The value lies between the two limits. Every sensitivity that the
    /// library hands out is well formed.
    #[verifier::type_invariant]
    pub open spec fn wf(self) -> bool {
        MIN_SENSITIVITY <= self.value() <= MAX_SENSITIVITY
    }

    /// The sensitivity nearest to `raw` thousandths: `raw` itself where it
    /// lies between the two limits, else the limit it lies beyond.
    pub fn clamped(raw: i64) -> (s: Sensitivity)
        ensures
            s.wf(),
            s.value() == clamp_sensitivity(raw as int),
    {
        if raw < MIN_SENSITIVITY as i64 {
            Sensitivity { thousandths: MIN_SENSITIVITY }
        } else if raw > MAX_SENSITIVITY as i64 {
            Sensitivity { thousandths: MAX_SENSITIVITY }
        } else {
            Sensitivity { thousandths: raw as u16 }
        }
    }

    /// The sensitivity `1.0`.
    pub fn unit() -> (s: Sensitivity)
        ensures
            s.wf(),
            s.value() == UNIT_SENSITIVITY,
    {
        Sensitivity { thousandths: UNIT_SENSITIVITY }
    }

    /// The sensitivity in thousandths.
    pub fn thousandths(&self) -> (t: u16)
        ensures
            self.wf(),
            t == self.value(),
    {
        proof {
            use_type_invariant(self);
        }
        self.thousandths
    }
}

impl Default for Sensitivity {
    fn default() -> (s: Sensitivity)
        ensures
            s.wf(),
            s.value() == UNIT_SENSITIVITY,
    {
        Sensitivity::unit()
    }
}

/// One delta in thousandths of a pixel scaled by `sensitivity`, in whole
/// pixels.
pub fn scale_delta(delta: i32, sensitivity: Sensitivity) -> (out: i32)
    ensures
        out == scaled(delta as int, sensitivity.value()),
{
    let s: i64 = sensitivity.thousandths() as i64;
    let d: i64 = delta as i64;
    assert(-4_294_967_296_000 <= d * s <= 4_294_967_296_000) by (nonlinear_arith)
        requires
            -2_147_483_648 <= d <= 2_147_483_647,
            100 <= s <= 2000,
    ;
    let num: i64 = d * s;
    let den: i64 = UNITS * UNITS;
    let whole: i64 = if num >= 0 {
        (2 * num + den) / (2 * den)
    } else {
        -((2 * (-num) + den) / (2 * den))
    };
    whole as i32
}

/// A rounded quotient lies within half a unit of the exact one:
/// `|round_div(num, den) * den - num| <= den / 2`.
pub proof fn lemma_round_div_is_nearest(num: int, den: int)
    requires
        den > 0,
    ensures
        -den <= 2 * (round_div(num, den) * den - num) <= den,
{
    let m: int = if num >= 0 { num } else { -num };
    let q: int = (2 * m + den) / (2 * den);
    let r: int = (2 * m + den) % (2 * den);
    lemma_fundamental_div_mod(2 * m + den, 2 * den);
    assert(2 * m + den == (2 * den) * q + r);
    assert(0 <= r < 2 * den);
    assert((2 * den) * q == 2 * (q * den)) by (nonlinear_arith);
    if num >= 0 {
        assert(round_div(num, den) == q);
    } else {
        assert(round_div(num, den) == -q);
        assert((-q) * den == -(q * den)) by (nonlinear_arith);
    }
}

/// The rounded quotient is the only integer within half a unit of the exact
/// one, the half that lies away from zero included and the other not.
pub proof fn lemma_round_div_unique(num: int, den: int, q: int)
    requires
        den > 0,
        num >= 0 ==> 2 * (q * den) - den <= 2 * num < 2 * (q * den) + den,
        num < 0 ==> 2 * (q * den) - den < 2 * num <= 2 * (q * den) + den,
    ensures
        round_div(num, den) == q,
{
    let m: int = if num >= 0 { num } else { -num };
    let p: int = if num >= 0 { q } else { -q };
    assert(p * den == if num >= 0 { q * den } else { -(q * den) }) by (nonlinear_arith)
        requires
            p == if num >= 0 { q } else { -q },
    ;
    let r: int = 2 * m + den - 2 * (p * den);
    assert(p * (2 * den) == 2 * (p * den)) by (nonlinear_arith);
    lemma_fundamental_div_mod_converse(2 * m + den, 2 * den, p, r);
}

/// A scaled delta is the exact product to within half a pixel.
pub proof fn lemma_scaled_is_nearest(delta: int, sensitivity: int)
    ensures
        -(UNITS * UNITS) <= 2 * (scaled(delta, sensitivity) * (UNITS * UNITS) - delta
            * sensitivity) <= UNITS * UNITS,
{
    lemma_round_div_is_nearest(delta * sensitivity, UNITS * UNITS);
}

/// Within the limits of sensitivity a scaled 32-bit delta fits in 32 bits.
pub proof fn lemma_scaled_fits(delta: i32, sensitivity: int)
    requires
        MIN_SENSITIVITY <= sensitivity <= MAX_SENSITIVITY,
    ensures
        i32::MIN <= scaled(delta as int, sensitivity) <= i32::MAX,
{
    let d: int = delta as int;
    let num: int = d * sensitivity;
    assert(-4_294_967_296_000 <= num <= 4_294_967_296_000) by (nonlinear_arith)
        requires
            num == d * sensitivity,
            -2_147_483_648 <= d <= 2_147_483_647,
            100 <= sensitivity <= 2000,
    ;
    let den: int = UNITS * UNITS;
    assert(den == 1_000_000);
    let m: int = if num >= 0 { num } else { -num };
    let q: int = (2 * m + den) / (2 * den);
    lemma_fundamental_div_mod(2 * m + den, 2 * den);
    assert((2 * den) * q == 2_000_000 * q);
    assert(0 <= q <= 4_294_968);
}

} // verus!
