//! 16.16 fixed-point scalar arithmetic on `i64` raw values.
//!
//! A raw value `r` stands for the real number `r / 65536`.  Every operation
//! saturates at the `i64` range and truncates quotients toward zero; the spec
//! functions below state those results exactly, and every executable
//! operation is proved to return exactly its spec.

use vstd::prelude::*;

verus! {

/// Raw representation of 1.0.
pub const FX_ONE: i64 = 65536;

/// Saturation of a mathematical integer to the `i64` range.
pub open spec fn fx_clamp_spec(v: int) -> int {
    if v < i64::MIN as int {
        i64::MIN as int
    } else if v > i64::MAX as int {
        i64::MAX as int
    } else {
        v
    }
}

/// Division truncating toward zero, for a positive divisor.
pub open spec fn fx_tdiv(a: int, b: int) -> int
    recommends
        b > 0,
{
    if a >= 0 {
        a / b
    } else {
        -((-a) / b)
    }
}

/// Saturating fixed-point addition.
pub open spec fn fx_add_spec(a: int, b: int) -> int {
    fx_clamp_spec(a + b)
}

/// Saturating fixed-point subtraction.
pub open spec fn fx_sub_spec(a: int, b: int) -> int {
    fx_clamp_spec(a - b)
}

/// Saturating fixed-point negation.
pub open spec fn fx_neg_spec(a: int) -> int {
    fx_clamp_spec(-a)
}

/// Saturating fixed-point product: `a * b / 65536`, truncated toward zero.
pub open spec fn fx_mul_spec(a: int, b: int) -> int {
    fx_clamp_spec(fx_tdiv(a * b, 65536))
}

/// Saturating fixed-point quotient: `a * 65536 / b`, truncated toward zero.
/// Division by zero yields zero (a silent degenerate case, never a fault).
pub open spec fn fx_div_spec(a: int, b: int) -> int {
    if b == 0 {
        0
    } else if b > 0 {
        fx_clamp_spec(fx_tdiv(a * 65536, b))
    } else {
        fx_clamp_spec(fx_tdiv(-(a * 65536), -b))
    }
}

/// Floor of a non-negative fixed-point value, as an integer count of wholes.
pub open spec fn fx_floor_spec(a: int) -> int
    recommends
        a >= 0,
{
    a / 65536
}

/// Ceiling of a fixed-point value, as an integer count of wholes.
pub open spec fn fx_ceil_spec(a: int) -> int {
    if a >= 0 {
        (a + 65535) / 65536
    } else {
        -((-a) / 65536)
    }
}

/// The product of two `i64` values stays well inside the `i128` range.
pub proof fn lemma_i64_product_in_i128(a: int, b: int)
    by (nonlinear_arith)
    requires
        i64::MIN as int <= a <= i64::MAX as int,
        i64::MIN as int <= b <= i64::MAX as int,
    ensures
        (i128::MIN as int) < a * b,
        a * b < (i128::MAX as int),
{
}

fn clamp_to_i64(v: i128) -> (r: i64)
    ensures
        r as int == fx_clamp_spec(v as int),
{
    if v < i64::MIN as i128 {
        i64::MIN
    } else if v > i64::MAX as i128 {
        i64::MAX
    } else {
        v as i64
    }
}

fn tdiv128(a: i128, d: u64) -> (r: i128)
    requires
        d > 0,
        a > i128::MIN,
    ensures
        r as int == fx_tdiv(a as int, d as int),
{
    if a >= 0 {
        let q: u128 = (a as u128) / (d as u128);
        q as i128
    } else {
        let n: u128 = (-a) as u128;
        let q: u128 = n / (d as u128);
        -(q as i128)
    }
}

/// Saturating fixed-point addition.
pub fn fx_add(a: i64, b: i64) -> (r: i64)
    ensures
        r as int == fx_add_spec(a as int, b as int),
{
    clamp_to_i64(a as i128 + b as i128)
}

/// Saturating fixed-point subtraction.
pub fn fx_sub(a: i64, b: i64) -> (r: i64)
    ensures
        r as int == fx_sub_spec(a as int, b as int),
{
    clamp_to_i64(a as i128 - b as i128)
}

/// Saturating fixed-point negation.
pub fn fx_neg(a: i64) -> (r: i64)
    ensures
        r as int == fx_neg_spec(a as int),
{
    clamp_to_i64(-(a as i128))
}

/// Saturating fixed-point multiplication.
pub fn fx_mul(a: i64, b: i64) -> (r: i64)
    ensures
        r as int == fx_mul_spec(a as int, b as int),
{
    proof {
        lemma_i64_product_in_i128(a as int, b as int);
    }
    let p: i128 = (a as i128) * (b as i128);
    let q: i128 = tdiv128(p, 65536);
    clamp_to_i64(q)
}

/// Saturating fixed-point division; zero divisor yields zero.
pub fn fx_div(a: i64, b: i64) -> (r: i64)
    ensures
        r as int == fx_div_spec(a as int, b as int),
{
    if b == 0 {
        return 0;
    }
    let n: i128 = (a as i128) * 65536;
    if b > 0 {
        clamp_to_i64(tdiv128(n, b as u64))
    } else {
        let d: u64 = (-(b as i128)) as u64;
        clamp_to_i64(tdiv128(-n, d))
    }
}

/// Floor of a non-negative fixed-point value.
pub fn fx_floor(a: i64) -> (r: i64)
    requires
        a >= 0,
    ensures
        r as int == fx_floor_spec(a as int),
{
    ((a as u64) / 65536) as i64
}

/// Ceiling of a fixed-point value.
pub fn fx_ceil(a: i64) -> (r: i64)
    ensures
        r as int == fx_ceil_spec(a as int),
{
    if a >= 0 {
        (((a as u64) + 65535) / 65536) as i64
    } else {
        let n: u64 = (-(a as i128)) as u64;
        -((n / 65536) as i64)
    }
}

/// Larger of two raw values.
pub open spec fn fx_max_spec(a: int, b: int) -> int {
    if a >= b {
        a
    } else {
        b
    }
}

/// Smaller of two raw values.
pub open spec fn fx_min_spec(a: int, b: int) -> int {
    if a <= b {
        a
    } else {
        b
    }
}

/// Larger of two raw values.
pub fn fx_max(a: i64, b: i64) -> (r: i64)
    ensures
        r as int == fx_max_spec(a as int, b as int),
{
    if a >= b {
        a
    } else {
        b
    }
}

/// Smaller of two raw values.
pub fn fx_min(a: i64, b: i64) -> (r: i64)
    ensures
        r as int == fx_min_spec(a as int, b as int),
{
    if a <= b {
        a
    } else {
        b
    }
}

/// `r` is the integer square root of `v`.
pub open spec fn is_sqrt(v: int, r: int) -> bool {
    0 <= r && r * r <= v && v < (r + 1) * (r + 1)
}

/// The integer square root of a non-negative value.
pub open spec fn sqrt_floor(v: int) -> int {
    choose|r: int| is_sqrt(v, r)
}

/// An integer square root exists for every non-negative value.
pub proof fn lemma_sqrt_exists(v: int)
    requires
        v >= 0,
    ensures
        is_sqrt(v, sqrt_floor(v)),
    decreases v,
{
    if v == 0 {
        assert(is_sqrt(0, 0));
    } else {
        lemma_sqrt_exists(v - 1);
        let r = sqrt_floor(v - 1);
        if v < (r + 1) * (r + 1) {
            assert(is_sqrt(v, r));
        } else {
            assert(v == (r + 1) * (r + 1));
            assert((r + 1) * (r + 1) < (r + 2) * (r + 2)) by (nonlinear_arith)
                requires
                    r >= 0,
            ;
            assert(is_sqrt(v, r + 1));
        }
    }
}

/// The integer square root is unique.
pub proof fn lemma_sqrt_unique(v: int, a: int, b: int)
    by (nonlinear_arith)
    requires
        is_sqrt(v, a),
        is_sqrt(v, b),
    ensures
        a == b,
{
}

/// Integer square root by bisection.
pub fn isqrt_u128(v: u128) -> (r: u128)
    ensures
        r as int == sqrt_floor(v as int),
        is_sqrt(v as int, r as int),
{
    let mut lo: u128 = 0;
    let mut hi: u128 = 0x1_0000_0000_0000_0000;
    proof {
        assert((hi as int) * (hi as int) > (v as int)) by (nonlinear_arith)
            requires
                hi as int == 0x1_0000_0000_0000_0000,
                (v as int) < 0x1_0000_0000_0000_0000 * 0x1_0000_0000_0000_0000,
        ;
    }
    while lo + 1 < hi
        invariant
            lo < hi <= 0x1_0000_0000_0000_0000,
            (lo as int) * (lo as int) <= (v as int),
            (v as int) < (hi as int) * (hi as int),
        decreases hi - lo,
    {
        let mid: u128 = lo + (hi - lo) / 2;
        proof {
            assert((mid as int) * (mid as int) < 0x1_0000_0000_0000_0000 * 0x1_0000_0000_0000_0000)
                by (nonlinear_arith)
                requires
                    0 <= mid && (mid as int) < 0x1_0000_0000_0000_0000,
            ;
        }
        let sq: u128 = mid * mid;
        if sq <= v {
            lo = mid;
        } else {
            hi = mid;
        }
    }
    proof {
        assert(is_sqrt(v as int, lo as int));
        lemma_sqrt_exists(v as int);
        lemma_sqrt_unique(v as int, lo as int, sqrt_floor(v as int));
    }
    lo
}

/// Clamp a raw value into `[lo, hi]`.
pub open spec fn fx_clamp_range_spec(v: int, lo: int, hi: int) -> int
    recommends
        lo <= hi,
{
    if v < lo {
        lo
    } else if v > hi {
        hi
    } else {
        v
    }
}

/// Clamp a raw value into `[lo, hi]`.
pub fn fx_clamp_range(v: i64, lo: i64, hi: i64) -> (r: i64)
    requires
        lo <= hi,
    ensures
        r as int == fx_clamp_range_spec(v as int, lo as int, hi as int),
{
    if v < lo {
        lo
    } else if v > hi {
        hi
    } else {
        v
    }
}

} // verus!
