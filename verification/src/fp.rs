//! Saturating fixed-point arithmetic on `i64` with six decimal places.
//!
//! Every scalar quantity of the simulation is a real number stored as an
//! `i64` holding the value times [`SCALE`], rounded toward zero.  Each
//! operation widens to `i128`, computes exactly, and saturates the result
//! into the `i64` range, so no arithmetic ever overflows or panics; the
//! contracts state the exact value produced, saturation included.

use vstd::prelude::*;

verus! {

use vstd::arithmetic::div_mod::lemma_div_nonincreasing;
use vstd::arithmetic::div_mod::lemma_div_pos_is_pos;

/// Number of fixed-point units in one simulation unit.
pub const SCALE: i64 = 1_000_000;

/// Clamp a mathematical integer into the `i64` range.
pub open spec fn sat64(x: int) -> int {
    if x > i64::MAX as int {
        i64::MAX as int
    } else if x < i64::MIN as int {
        i64::MIN as int
    } else {
        x
    }
}

/// Quotient of `a` by `b > 0`, rounded toward zero.
pub open spec fn tdiv(a: int, b: int) -> int
    recommends
        b > 0,
{
    if a >= 0 {
        a / b
    } else {
        -((-a) / b)
    }
}

/// Saturating sum of two fixed-point values.
pub open spec fn sadd(a: int, b: int) -> int {
    sat64(a + b)
}

/// Saturating difference of two fixed-point values.
pub open spec fn ssub(a: int, b: int) -> int {
    sat64(a - b)
}

/// Product of two fixed-point values: exact product, rescaled toward zero,
/// saturated.
pub open spec fn fmul(a: int, b: int) -> int {
    sat64(tdiv(a * b, SCALE as int))
}

/// Fixed-point quotient `a / b` for `b > 0`: exact scaled quotient, rounded
/// toward zero, saturated.
pub open spec fn fdiv(a: int, b: int) -> int
    recommends
        b > 0,
{
    sat64(tdiv(a * (SCALE as int), b))
}

/// Truncating division never increases magnitude.
proof fn lemma_tdiv_magnitude(a: int, b: int)
    requires
        b > 0,
    ensures
        a >= 0 ==> 0 <= tdiv(a, b) <= a,
        a < 0 ==> a <= tdiv(a, b) <= 0,
{
    if a >= 0 {
        lemma_div_nonincreasing(a, b);
        lemma_div_pos_is_pos(a, b);
        if a == 0 {
            assert(0int / b == 0) by (nonlinear_arith)
                requires
                    b > 0,
            ;
        }
    } else {
        lemma_div_nonincreasing(-a, b);
        lemma_div_pos_is_pos(-a, b);
    }
}

fn clamp_i128(x: i128) -> (r: i64)
    ensures
        r as int == sat64(x as int),
{
    if x > i64::MAX as i128 {
        i64::MAX
    } else if x < i64::MIN as i128 {
        i64::MIN
    } else {
        x as i64
    }
}

/// Saturating addition.
pub fn add_fp(a: i64, b: i64) -> (r: i64)
    ensures
        r as int == sadd(a as int, b as int),
{
    clamp_i128(a as i128 + b as i128)
}

/// Saturating subtraction.
pub fn sub_fp(a: i64, b: i64) -> (r: i64)
    ensures
        r as int == ssub(a as int, b as int),
{
    clamp_i128(a as i128 - b as i128)
}

/// Saturating negation.
pub fn neg_fp(a: i64) -> (r: i64)
    ensures
        r as int == sat64(-(a as int)),
{
    clamp_i128(-(a as i128))
}

/// Divide a widened product by a positive divisor, rounding toward zero.
fn tdiv_i128(p: i128, d: i128) -> (q: i128)
    requires
        d > 0,
    ensures
        q as int == tdiv(p as int, d as int),
{
    proof {
        lemma_tdiv_magnitude(p as int, d as int);
    }
    match p.checked_div(d) {
        Some(q) => q,
        None => 0,
    }
}

/// Saturating fixed-point multiplication.
pub fn mul_fp(a: i64, b: i64) -> (r: i64)
    ensures
        r as int == fmul(a as int, b as int),
{
    assert(i128::MIN as int <= (a as int) * (b as int) <= i128::MAX as int)
        by (nonlinear_arith)
        requires
            i64::MIN as int <= a as int <= i64::MAX as int,
            i64::MIN as int <= b as int <= i64::MAX as int,
    ;
    let p: i128 = (a as i128) * (b as i128);
    clamp_i128(tdiv_i128(p, SCALE as i128))
}

/// Saturating fixed-point division by a positive divisor.
pub fn div_fp(a: i64, b: i64) -> (r: i64)
    requires
        b > 0,
    ensures
        r as int == fdiv(a as int, b as int),
{
    assert(i128::MIN as int <= (a as int) * (SCALE as int) <= i128::MAX as int)
        by (nonlinear_arith)
        requires
            i64::MIN as int <= a as int <= i64::MAX as int,
    ;
    let p: i128 = (a as i128) * (SCALE as i128);
    clamp_i128(tdiv_i128(p, b as i128))
}

} // verus!
