//! Fixed-point arithmetic: an `i64` holds a value in millionths.
//! Results are rounded toward zero and saturate at the bounds of `i64`.

use vstd::prelude::*;

verus! {

/// A point or direction in space, each coordinate in fixed point.
#[derive(Clone, Copy, Debug, PartialEq, Eq, Structural)]
pub struct Vector {
    pub x: i64,
    pub y: i64,
    pub z: i64,
}

impl Vector {
    pub fn new(x: i64, y: i64, z: i64) -> (r: Vector)
        ensures
            r == (Vector { x, y, z }),
    {
        Vector { x, y, z }
    }
}

/// Number of fixed-point units in one SI unit.
pub const SCALE: i64 = 1_000_000;

/// The value `v` held to the range of `i64`.
pub open spec fn clamp64(v: int) -> int {
    if v < i64::MIN {
        i64::MIN as int
    } else if v > i64::MAX {
        i64::MAX as int
    } else {
        v
    }
}

/// Quotient of `a` by `b`, rounded toward zero (for `b > 0`).
pub open spec fn div_trunc(a: int, b: int) -> int {
    if a >= 0 {
        a / b
    } else {
        -((-a) / b)
    }
}

/// Fixed-point product of `a` and `b`.
pub open spec fn mul_spec(a: int, b: int) -> int {
    clamp64(div_trunc(a * b, SCALE as int))
}

/// Fixed-point sum of `a` and `b`.
pub open spec fn add_spec(a: int, b: int) -> int {
    clamp64(a + b)
}

/// Fixed-point quotient of `a` by `b` (for `b > 0`).
pub open spec fn div_spec(a: int, b: int) -> int {
    clamp64(div_trunc(a * SCALE, b))
}

pub proof fn lemma_div_trunc_bounds(a: int, b: int)
    requires
        b > 0,
    ensures
        a >= 0 ==> 0 <= div_trunc(a, b) <= a,
        a < 0 ==> a <= div_trunc(a, b) <= 0,
        a >= 0 ==> div_trunc(a, b) * b <= a,
        a < 0 ==> div_trunc(a, b) * b >= a,
{
    if a >= 0 {
        assert(0 <= a / b <= a) by (nonlinear_arith) requires a >= 0, b > 0;
        assert((a / b) * b <= a) by (nonlinear_arith) requires a >= 0, b > 0;
    } else {
        let n = -a;
        assert(0 <= n / b <= n) by (nonlinear_arith) requires n >= 0, b > 0;
        assert((n / b) * b <= n) by (nonlinear_arith) requires n >= 0, b > 0;
        assert(-(n / b) * b == -((n / b) * b)) by (nonlinear_arith);
    }
}

/// A product of two `i64` values fits well inside `i128`.
pub proof fn lemma_i64_product_bound(a: i64, b: i64)
    ensures
        -0x4000_0000_0000_0000_0000_0000_0000_0000 <= (a as int) * (b as int)
            <= 0x4000_0000_0000_0000_0000_0000_0000_0000,
{
    let x = a as int;
    let y = b as int;
    assert(-0x4000_0000_0000_0000_0000_0000_0000_0000 <= x * y
        <= 0x4000_0000_0000_0000_0000_0000_0000_0000) by (nonlinear_arith)
        requires
            -0x8000_0000_0000_0000 <= x <= 0x7fff_ffff_ffff_ffff,
            -0x8000_0000_0000_0000 <= y <= 0x7fff_ffff_ffff_ffff,
    ;
}

/// Products of non-negative values grow with their factors.
pub proof fn lemma_mul_le(a: int, b: int, c: int, d: int)
    requires
        0 <= a <= c,
        0 <= b <= d,
    ensures
        0 <= a * b <= c * d,
{
    assert(0 <= a * b <= c * d) by (nonlinear_arith)
        requires
            0 <= a <= c,
            0 <= b <= d,
    ;
}

/// Rounds `v` into `i64`.
pub fn saturate(v: i128) -> (r: i64)
    ensures
        r == clamp64(v as int),
{
    if v < i64::MIN as i128 {
        i64::MIN
    } else if v > i64::MAX as i128 {
        i64::MAX
    } else {
        v as i64
    }
}

/// Quotient of `a` by a positive `b`, rounded toward zero.
pub fn i128_div_trunc(a: i128, b: i128) -> (r: i128)
    requires
        b > 0,
        a > i128::MIN,
    ensures
        r == div_trunc(a as int, b as int),
{
    proof {
        lemma_div_trunc_bounds(a as int, b as int);
    }
    if a >= 0 {
        a / b
    } else {
        let n: i128 = -a;
        -(n / b)
    }
}

/// Fixed-point product, rounded toward zero and saturated.
pub fn fx_mul(a: i64, b: i64) -> (r: i64)
    ensures
        r == mul_spec(a as int, b as int),
{
    proof {
        lemma_i64_product_bound(a, b);
    }
    let p: i128 = (a as i128) * (b as i128);
    saturate(i128_div_trunc(p, SCALE as i128))
}

/// Fixed-point sum, saturated.
pub fn fx_add(a: i64, b: i64) -> (r: i64)
    ensures
        r == add_spec(a as int, b as int),
{
    saturate(a as i128 + b as i128)
}

/// Fixed-point difference, saturated.
pub fn fx_sub(a: i64, b: i64) -> (r: i64)
    ensures
        r == clamp64(a - b),
{
    saturate(a as i128 - b as i128)
}

/// Fixed-point quotient by a positive divisor, rounded toward zero and saturated.
pub fn fx_div(a: i64, b: i64) -> (r: i64)
    requires
        b > 0,
    ensures
        r == div_spec(a as int, b as int),
{
    proof {
        lemma_i64_product_bound(a, SCALE);
    }
    let n: i128 = (a as i128) * (SCALE as i128);
    saturate(i128_div_trunc(n, b as i128))
}

/// `r` is the square root of `n` rounded down.
pub open spec fn is_floor_sqrt(r: int, n: int) -> bool {
    r >= 0 && r * r <= n < (r + 1) * (r + 1)
}

/// The square root of `n`, rounded down (for `n >= 0`).
pub open spec fn floor_sqrt(n: int) -> int {
    choose|r: int| is_floor_sqrt(r, n)
}

pub proof fn lemma_floor_sqrt_unique(r: int, s: int, n: int)
    requires
        is_floor_sqrt(r, n),
        is_floor_sqrt(s, n),
    ensures
        r == s,
{
    if r < s {
        lemma_mul_le(r + 1, r + 1, s, s);
    } else if s < r {
        lemma_mul_le(s + 1, s + 1, r, r);
    }
}

/// Square root of `n`, rounded down.
pub fn isqrt(n: u128) -> (r: u64)
    ensures
        r == floor_sqrt(n as int),
        is_floor_sqrt(r as int, n as int),
{
    let mut lo: u128 = 0;
    let mut hi: u128 = 0x1_0000_0000_0000_0000;
    assert(n < hi * hi) by (nonlinear_arith)
        requires
            hi == 0x1_0000_0000_0000_0000,
            n < 0x1_0000_0000_0000_0000_0000_0000_0000_0000,
    ;
    while hi - lo > 1
        invariant
            lo < hi <= 0x1_0000_0000_0000_0000,
            lo * lo <= n,
            n < hi * hi,
        decreases hi - lo,
    {
        let mid: u128 = lo + (hi - lo) / 2;
        proof {
            lemma_mul_le(mid as int, mid as int, 0xffff_ffff_ffff_ffff, 0xffff_ffff_ffff_ffff);
        }
        if mid * mid <= n {
            lo = mid;
        } else {
            hi = mid;
        }
    }
    proof {
        assert(hi == lo + 1);
        assert(is_floor_sqrt(lo as int, n as int));
        lemma_floor_sqrt_unique(lo as int, floor_sqrt(n as int), n as int);
    }
    lo as u64
}

} // verus!
