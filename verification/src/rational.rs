//! Positive rational time bases and exact timestamp rescaling.
//!
//! A time base is a rational number of seconds per tick; a frame rate is a
//! rational number of frames per second. Presentation timestamps are carried
//! between time bases by an exact multiply-then-divide with rounding to the
//! nearest integer — never floating point, so there is no drift.

use vstd::arithmetic::div_mod::{
    lemma_div_is_ordered, lemma_div_pos_is_pos, lemma_hoist_over_denominator,
};
use vstd::arithmetic::mul::{lemma_mul_inequality, lemma_mul_is_associative};
use vstd::prelude::*;

verus! {

/// A positive rational number `num / den`.
#[derive(Clone, Copy, PartialEq, Eq, Structural, Debug)]
pub struct Rational {
    pub num: i32,
    pub den: i32,
}

impl Rational {
    /// Frame rates and time bases are strictly positive quantities; a zero
    /// denominator has no meaning at all.
    pub open spec fn valid(self) -> bool {
        self.num > 0 && self.den > 0
    }

    pub fn new(num: i32, den: i32) -> (r: Rational)
        requires
            num > 0,
            den > 0,
        ensures
            r == (Rational { num, den }),
            r.valid(),
    {
        Rational { num, den }
    }

    /// The reciprocal: a frame rate of `n/d` frames per second has a frame
    /// duration — the encoder's time base — of `d/n` seconds per frame.
    pub open spec fn inverted(self) -> Rational {
        Rational { num: self.den, den: self.num }
    }

    pub fn invert(self) -> (r: Rational)
        ensures
            r == self.inverted(),
            self.valid() ==> r.valid(),
    {
        Rational { num: self.den, den: self.num }
    }
}

/// `x / d` rounded to the nearest integer, ties upward. All values rescaled
/// here are nonnegative, so ties upward coincides with ties away from zero.
pub open spec fn round_div(x: int, d: int) -> int
    recommends
        d > 0,
{
    (x + d / 2) / d
}

/// A tick count `a` of time base `from`, converted exactly into ticks of time
/// base `to`: the nearest integer to `a * from / to`.
pub open spec fn rescale_spec(a: int, from: Rational, to: Rational) -> int
    recommends
        from.valid(),
        to.valid(),
{
    round_div(a * from.num * to.den, to.num * from.den)
}

/// Exact rational rescale of a nonnegative tick count from one time base to
/// another: multiply, then divide with rounding to nearest.
pub fn rescale_q(a: u64, from: Rational, to: Rational) -> (r: i64)
    requires
        from.valid(),
        to.valid(),
        rescale_spec(a as int, from, to) <= i64::MAX as int,
    ensures
        r == rescale_spec(a as int, from, to),
        0 <= r,
{
    proof {
        lemma_rescale_bounds(a as int, from, to);
    }
    let num: u128 = (a as u128) * (from.num as u128) * (to.den as u128);
    let den: u128 = (to.num as u128) * (from.den as u128);
    let q: u128 = (num + den / 2) / den;
    q as i64
}

/// Whether the rescaled tick count fits a signed 64-bit timestamp.
pub fn rescale_in_range(a: u64, from: Rational, to: Rational) -> (r: bool)
    requires
        from.valid(),
        to.valid(),
    ensures
        r == (rescale_spec(a as int, from, to) <= i64::MAX as int),
{
    proof {
        lemma_rescale_bounds(a as int, from, to);
    }
    let num: u128 = (a as u128) * (from.num as u128) * (to.den as u128);
    let den: u128 = (to.num as u128) * (from.den as u128);
    let q: u128 = (num + den / 2) / den;
    q <= i64::MAX as u128
}

/// The product `a * from.num * to.den` of a nonnegative `u64` and two positive
/// `i32` components stays well inside `u128`, and the rounded quotient is
/// nonnegative.
proof fn lemma_rescale_bounds(a: int, from: Rational, to: Rational)
    requires
        0 <= a <= u64::MAX as int,
        from.valid(),
        to.valid(),
    ensures
        0 <= a * from.num <= (u64::MAX as int) * (i32::MAX as int),
        0 <= a * from.num * to.den <= (u64::MAX as int) * (i32::MAX as int) * (i32::MAX as int),
        a * from.num * to.den + (to.num * from.den) / 2 < u128::MAX as int,
        0 < to.num * from.den <= (i32::MAX as int) * (i32::MAX as int),
        0 <= rescale_spec(a, from, to),
{
    lemma_mul_inequality(1, to.num as int, from.den as int);
    assert(0 <= a * from.num <= (u64::MAX as int) * (i32::MAX as int)) by (nonlinear_arith)
        requires
            0 <= a <= u64::MAX as int,
            0 < from.num <= i32::MAX as int,
    ;
    assert(a * from.num * to.den <= (u64::MAX as int) * (i32::MAX as int) * (i32::MAX as int)
        && 0 <= a * from.num * to.den) by (nonlinear_arith)
        requires
            0 <= a * from.num <= (u64::MAX as int) * (i32::MAX as int),
            0 < to.den <= i32::MAX as int,
    ;
    assert(to.num * from.den <= (i32::MAX as int) * (i32::MAX as int)) by (nonlinear_arith)
        requires
            0 < to.num <= i32::MAX as int,
            0 < from.den <= i32::MAX as int,
    ;
    let c = to.num * from.den;
    lemma_div_pos_is_pos(c, 2);
    lemma_div_is_ordered(c, (i32::MAX as int) * (i32::MAX as int), 2);
    lemma_div_pos_is_pos(a * from.num * to.den + c / 2, c);
}

/// Strict monotonicity of the rescaled timestamp sequence: when one source
/// tick spans at least one destination tick, strictly increasing tick counts
/// rescale to strictly increasing timestamps. For a session this means that
/// as long as a frame lasts at least one stream-time-base tick, successive
/// frame indices always receive strictly increasing presentation timestamps.
pub proof fn lemma_rescale_strictly_increasing(i: int, j: int, from: Rational, to: Rational)
    requires
        0 <= i < j,
        from.valid(),
        to.valid(),
        from.num * to.den >= to.num * from.den,
    ensures
        rescale_spec(i, from, to) < rescale_spec(j, from, to),
{
    let b: int = (from.num * to.den) as int;
    let c: int = (to.num * from.den) as int;
    assert(from.num * to.den > 0) by (nonlinear_arith)
        requires
            from.num > 0,
            to.den > 0,
    ;
    assert(to.num * from.den > 0) by (nonlinear_arith)
        requires
            to.num > 0,
            from.den > 0,
    ;
    let h = c / 2;
    lemma_div_pos_is_pos(c, 2);
    lemma_mul_is_associative(i, from.num as int, to.den as int);
    lemma_mul_is_associative(j, from.num as int, to.den as int);
    assert(j * b >= i * b + b) by (nonlinear_arith)
        requires
            i < j,
            b > 0,
    ;
    lemma_hoist_over_denominator(i * b + h, 1, c as nat);
    lemma_div_is_ordered(i * b + h + c, j * b + h, c);
    assert(rescale_spec(i, from, to) == (i * b + h) / c);
    assert(rescale_spec(j, from, to) == (j * b + h) / c);
}

} // verus!
