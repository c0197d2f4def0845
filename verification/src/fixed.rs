//! Fixed-point coordinate arithmetic.
//!
//! Clip rectangles, display sizes and scale factors are carried as
//! fixed-point numbers with 16 fractional bits: the value of `Fx { raw }` is
//! `raw / 65536`. All frame arithmetic (offset, scale, clamp, truncation to
//! pixels) is exact over this representation.

use vstd::prelude::*;

verus! {

/// Number of raw units per whole unit (2^16).
pub const FX_ONE: i64 = 65536;

/// Magnitude bound on well-formed inputs (2^30 raw units, i.e. +/-16384.0).
pub const FX_MAX_RAW: i64 = 0x4000_0000;

/// Magnitude bound on products of well-formed inputs (2^45 raw units).
pub const FX_MAX_PRODUCT_RAW: i64 = 0x2000_0000_0000;

/// A fixed-point number with 16 fractional bits: the value is `raw / 65536`.
#[derive(Clone, Copy, PartialEq, Eq, Structural, Debug)]
pub struct Fx {
    pub raw: i64,
}

impl Fx {
    /// Inputs handed to the translator stay within +/-16384.0.
    pub open spec fn wf(self) -> bool {
        -FX_MAX_RAW <= self.raw <= FX_MAX_RAW
    }

    /// Values produced by scaling a well-formed input stay within +/-2^29.
    pub open spec fn in_product_range(self) -> bool {
        -FX_MAX_PRODUCT_RAW <= self.raw <= FX_MAX_PRODUCT_RAW
    }

    /// The fixed-point representation of 1.0.
    pub fn one() -> (r: Fx)
        ensures
            r.raw == FX_ONE,
            r.wf(),
    {
        Fx { raw: FX_ONE }
    }

    /// The fixed-point representation of a small integer.
    pub fn from_int(v: i32) -> (r: Fx)
        requires
            -16384 <= v <= 16384,
        ensures
            r.raw == v * FX_ONE,
            r.wf(),
    {
        Fx { raw: (v as i64) * FX_ONE }
    }
}

/// Raw value of the difference of two fixed-point numbers.
pub open spec fn fx_sub_raw(a: int, b: int) -> int {
    a - b
}

/// Raw value of the product of two fixed-point numbers, truncated toward
/// zero, mirroring how a hardware float product is narrowed.
pub open spec fn fx_mul_raw(a: int, b: int) -> int {
    if a * b >= 0 {
        (a * b) / (FX_ONE as int)
    } else {
        -((-(a * b)) / (FX_ONE as int))
    }
}

/// Integer part of a non-negative fixed-point number (truncation).
pub open spec fn fx_trunc_raw(a: int) -> int
    recommends
        a >= 0,
{
    a / (FX_ONE as int)
}

/// Difference of two well-formed fixed-point numbers.
pub fn fx_sub(a: Fx, b: Fx) -> (r: Fx)
    requires
        a.wf(),
        b.wf(),
    ensures
        r.raw == fx_sub_raw(a.raw as int, b.raw as int),
        -2 * FX_MAX_RAW <= r.raw <= 2 * FX_MAX_RAW,
{
    Fx { raw: a.raw - b.raw }
}

/// Product of a difference of well-formed numbers with a well-formed scale
/// factor.
pub fn fx_mul(a: Fx, b: Fx) -> (r: Fx)
    requires
        -2 * FX_MAX_RAW <= a.raw <= 2 * FX_MAX_RAW,
        b.wf(),
    ensures
        r.raw == fx_mul_raw(a.raw as int, b.raw as int),
        r.in_product_range(),
{
    proof {
        assert((-0x2000_0000_0000_0000 <= (a.raw as int) * (b.raw as int)
            <= 0x2000_0000_0000_0000) && ((a.raw as int) * (b.raw as int) == 0
            || ((a.raw as int) * (b.raw as int) > 0 <==> (a.raw > 0 && b.raw > 0) || (a.raw < 0
            && b.raw < 0)))) by (nonlinear_arith)
            requires
                -2 * FX_MAX_RAW <= a.raw <= 2 * FX_MAX_RAW,
                -FX_MAX_RAW <= b.raw <= FX_MAX_RAW,
        ;
    }
    let p: i64 = a.raw * b.raw;
    if p >= 0 {
        let d: u64 = (p as u64) / 65536;
        proof {
            lemma_div_by_one_div(p as int, d as int);
        }
        Fx { raw: d as i64 }
    } else {
        let n: u64 = (-p) as u64;
        let d: u64 = n / 65536;
        proof {
            lemma_div_by_one_div(n as int, d as int);
        }
        Fx { raw: -(d as i64) }
    }
}

/// Dividing a value bounded by 2^61 by 2^16 yields a value bounded by 2^45.
proof fn lemma_div_by_one_div(p: int, d: int)
    requires
        0 <= p <= 0x2000_0000_0000_0000,
        d == p / (FX_ONE as int),
    ensures
        0 <= d <= FX_MAX_PRODUCT_RAW,
{
    assert(0 <= p / (FX_ONE as int) <= 0x2000_0000_0000) by (nonlinear_arith)
        requires
            0 <= p <= 0x2000_0000_0000_0000,
    ;
}

/// Integer part of a non-negative in-range fixed-point number.
pub fn fx_trunc(a: Fx) -> (r: i64)
    requires
        0 <= a.raw <= FX_MAX_PRODUCT_RAW,
    ensures
        r == fx_trunc_raw(a.raw as int),
        0 <= r <= 0x2000_0000,
{
    let d: u64 = (a.raw as u64) / 65536;
    proof {
        assert(0 <= (a.raw as int) / (FX_ONE as int) <= 0x2000_0000) by (nonlinear_arith)
            requires
                0 <= a.raw <= FX_MAX_PRODUCT_RAW,
        ;
    }
    d as i64
}

} // verus!
