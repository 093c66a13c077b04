//! Two-dimensional fixed-point vectors, distance, and unit normals.

use vstd::prelude::*;

verus! {

use crate::fp::{SCALE, sat64, sadd, ssub, fmul, fdiv, add_fp, sub_fp, mul_fp, div_fp};

/// A 2D vector whose components are fixed-point scalars (see [`crate::fp`]).
#[derive(Clone, Copy, Debug, PartialEq, Eq, Structural)]
pub struct Vec2 {
    pub x: i64,
    pub y: i64,
}

/// The zero vector.
pub open spec fn spec_vzero() -> Vec2 {
    Vec2 { x: 0, y: 0 }
}

/// Saturating component-wise sum.
pub open spec fn spec_vadd(a: Vec2, b: Vec2) -> Vec2 {
    Vec2 { x: sadd(a.x as int, b.x as int) as i64, y: sadd(a.y as int, b.y as int) as i64 }
}

/// Saturating component-wise difference.
pub open spec fn spec_vsub(a: Vec2, b: Vec2) -> Vec2 {
    Vec2 { x: ssub(a.x as int, b.x as int) as i64, y: ssub(a.y as int, b.y as int) as i64 }
}

/// Saturating scaling of a vector by a fixed-point scalar.
pub open spec fn spec_vscale(v: Vec2, s: int) -> Vec2 {
    Vec2 { x: fmul(v.x as int, s) as i64, y: fmul(v.y as int, s) as i64 }
}

/// Saturating fixed-point dot product.
pub open spec fn spec_vdot(a: Vec2, b: Vec2) -> int {
    sadd(fmul(a.x as int, b.x as int), fmul(a.y as int, b.y as int))
}

impl Vec2 {
    /// The zero vector.
    pub fn zero() -> (r: Vec2)
        ensures
            r == spec_vzero(),
    {
        Vec2 { x: 0, y: 0 }
    }

    /// Saturating component-wise sum.
    pub fn plus(self, o: Vec2) -> (r: Vec2)
        ensures
            r == spec_vadd(self, o),
    {
        Vec2 { x: add_fp(self.x, o.x), y: add_fp(self.y, o.y) }
    }

    /// Saturating component-wise difference.
    pub fn minus(self, o: Vec2) -> (r: Vec2)
        ensures
            r == spec_vsub(self, o),
    {
        Vec2 { x: sub_fp(self.x, o.x), y: sub_fp(self.y, o.y) }
    }

    /// Saturating scaling by a fixed-point scalar.
    pub fn scaled(self, s: i64) -> (r: Vec2)
        ensures
            r == spec_vscale(self, s as int),
    {
        Vec2 { x: mul_fp(self.x, s), y: mul_fp(self.y, s) }
    }

    /// Saturating fixed-point dot product.
    pub fn dot(self, o: Vec2) -> (r: i64)
        ensures
            r as int == spec_vdot(self, o),
    {
        add_fp(mul_fp(self.x, o.x), mul_fp(self.y, o.y))
    }
}

/// `r` is the integer square root of `n`, rounded down.
pub open spec fn is_isqrt(n: int, r: int) -> bool {
    0 <= r && r * r <= n && n < (r + 1) * (r + 1)
}

proof fn lemma_isqrt_exists(n: int)
    requires
        n >= 0,
    ensures
        exists|r: int| is_isqrt(n, r),
    decreases n,
{
    if n == 0 {
        assert(is_isqrt(0, 0));
    } else {
        let m = n - 1;
        lemma_isqrt_exists(m);
        let r0 = choose|r: int| is_isqrt(m, r);
        if (r0 + 1) * (r0 + 1) <= n {
            assert(is_isqrt(n, r0 + 1)) by (nonlinear_arith)
                requires
                    is_isqrt(n - 1, r0),
                    (r0 + 1) * (r0 + 1) <= n,
            ;
        } else {
            assert(is_isqrt(n, r0));
        }
    }
}

proof fn lemma_isqrt_unique(n: int, r1: int, r2: int)
    by (nonlinear_arith)
    requires
        is_isqrt(n, r1),
        is_isqrt(n, r2),
    ensures
        r1 == r2,
{
}

/// The integer square root of `n >= 0`, rounded down.
pub open spec fn isqrt_spec(n: int) -> int {
    choose|r: int| is_isqrt(n, r)
}

/// The integer square root exists and satisfies its defining property.
pub proof fn lemma_isqrt_spec(n: int)
    requires
        n >= 0,
    ensures
        is_isqrt(n, isqrt_spec(n)),
{
    lemma_isqrt_exists(n);
}

/// Integer square root, rounded down.
fn isqrt(n: u128) -> (r: u64)
    ensures
        r as int == isqrt_spec(n as int),
        is_isqrt(n as int, r as int),
{
    let mut lo: u64 = 0;
    let mut hi: u64 = u64::MAX;
    assert((n as int) < (hi as int + 1) * (hi as int + 1)) by (nonlinear_arith)
        requires
            n as int <= u128::MAX as int,
            hi as int == u64::MAX as int,
    ;
    while lo < hi
        invariant
            lo <= hi,
            (lo as int) * (lo as int) <= n as int,
            (n as int) < (hi as int + 1) * (hi as int + 1),
        decreases hi - lo,
    {
        let diff: u64 = hi - lo;
        let mid: u64 = lo + diff / 2 + 1;
        assert((mid as u128) * (mid as u128) <= u128::MAX as int) by (nonlinear_arith)
            requires
                mid as int <= u64::MAX as int,
        ;
        let sq: u128 = (mid as u128) * (mid as u128);
        if sq <= n {
            lo = mid;
        } else {
            hi = mid - 1;
        }
    }
    proof {
        lemma_isqrt_spec(n as int);
        lemma_isqrt_unique(n as int, lo as int, isqrt_spec(n as int));
    }
    lo
}

/// Squared separation of two points, as an exact integer (scale `SCALE^2`),
/// computed from the saturating component differences.
pub open spec fn spec_dist_sq(a: Vec2, b: Vec2) -> int {
    let dx = ssub(a.x as int, b.x as int);
    let dy = ssub(a.y as int, b.y as int);
    dx * dx + dy * dy
}

/// Euclidean separation of two points: integer square root of the squared
/// separation, saturated into the fixed-point range.
pub open spec fn spec_dist(a: Vec2, b: Vec2) -> int {
    sat64(isqrt_spec(spec_dist_sq(a, b)))
}

/// Absolute value, widened to `u128`.
fn abs_u128(x: i64) -> (r: u128)
    ensures
        x >= 0 ==> r as int == x as int,
        x < 0 ==> r as int == -(x as int),
{
    if x >= 0 {
        x as u128
    } else {
        (-(x as i128)) as u128
    }
}

/// Euclidean separation of two points, rounded down, saturated.
pub fn dist_fp(a: Vec2, b: Vec2) -> (r: i64)
    ensures
        r as int == spec_dist(a, b),
        r >= 0,
{
    let dx = sub_fp(a.x, b.x);
    let dy = sub_fp(a.y, b.y);
    let ux = abs_u128(dx);
    let uy = abs_u128(dy);
    assert(ux as int * ux as int == dx as int * dx as int && ux as int * ux as int
        <= 0x4000_0000_0000_0000_0000_0000_0000_0000int) by (nonlinear_arith)
        requires
            ux as int == dx as int || ux as int == -(dx as int),
            -0x8000_0000_0000_0000int <= dx as int <= 0x7fff_ffff_ffff_ffffint,
    ;
    assert(uy as int * uy as int == dy as int * dy as int && uy as int * uy as int
        <= 0x4000_0000_0000_0000_0000_0000_0000_0000int) by (nonlinear_arith)
        requires
            uy as int == dy as int || uy as int == -(dy as int),
            -0x8000_0000_0000_0000int <= dy as int <= 0x7fff_ffff_ffff_ffffint,
    ;
    let sq: u128 = ux * ux + uy * uy;
    let root: u64 = isqrt(sq);
    if root > i64::MAX as u64 {
        i64::MAX
    } else {
        root as i64
    }
}

/// The unit vector along `d` (fixed-point scale), given the positive length
/// of `d`: each component divided by the length.
pub open spec fn spec_normal(d: Vec2, len: int) -> Vec2
    recommends
        len > 0,
{
    Vec2 { x: fdiv(d.x as int, len) as i64, y: fdiv(d.y as int, len) as i64 }
}

/// Normalize `d` by its (positive) length.
pub fn normal_from(d: Vec2, len: i64) -> (r: Vec2)
    requires
        len > 0,
    ensures
        r == spec_normal(d, len as int),
{
    Vec2 { x: div_fp(d.x, len), y: div_fp(d.y, len) }
}

/// The fixed fallback normal used when two points coincide exactly: the unit
/// vector along the first axis.
pub open spec fn spec_axis_normal() -> Vec2 {
    Vec2 { x: SCALE, y: 0 }
}

/// The fallback normal for coincident points.
pub fn axis_normal() -> (r: Vec2)
    ensures
        r == spec_axis_normal(),
{
    Vec2 { x: SCALE, y: 0 }
}

} // verus!
