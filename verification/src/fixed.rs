//! Fixed-point scalars.
//!
//! Every real-valued quantity of the render core (light parameters in
//! `[0, 1]`, world coordinates, sort keys) is carried as an `i64` holding the
//! value times [`SCALE`]. The scale is a power of two, so halves and the
//! documented parameter ranges are represented exactly.

use vstd::prelude::*;

verus! {

/// The fixed-point unit: a stored value of `SCALE` means `1.0`.
pub const SCALE: i64 = 65536;

/// Magnitude bound on coordinates and matrix entries accepted by the
/// geometry functions; products of two bounded values stay within `i64`.
pub const COORD_BOUND: i64 = 0x4000_0000;

/// Truncating (round-toward-zero) quotient, the semantics of `/` on `i64`.
pub open spec fn trunc_div(a: int, b: int) -> int {
    if a >= 0 {
        a / b
    } else {
        -((-a) / b)
    }
}

/// The product of two fixed-point values: `a * b / SCALE`, rounded toward zero.
pub open spec fn fp_mul_spec(a: int, b: int) -> int {
    trunc_div(a * b, SCALE as int)
}

/// The reciprocal of a positive fixed-point value: `SCALE * SCALE / d`.
pub open spec fn fp_recip_spec(d: int) -> int
    recommends
        d > 0,
{
    (SCALE * SCALE) as int / d
}

/// Multiplies two fixed-point values exactly as `fp_mul_spec` states.
pub fn fp_mul(a: i64, b: i64) -> (r: i64)
    requires
        -COORD_BOUND <= a <= COORD_BOUND,
        -COORD_BOUND <= b <= COORD_BOUND,
    ensures
        r == fp_mul_spec(a as int, b as int),
        -0x1000_0000_0000 <= r <= 0x1000_0000_0000,
{
    proof {
        lemma_bounded_product(a as int, b as int);
    }
    let p: i64 = a * b;
    if p >= 0 {
        p / SCALE
    } else {
        -((-p) / SCALE)
    }
}

/// The reciprocal of a positive fixed-point value, exactly as
/// `fp_recip_spec` states.
pub fn fp_recip(d: i64) -> (r: i64)
    requires
        0 < d,
    ensures
        r == fp_recip_spec(d as int),
        0 <= r <= SCALE * SCALE,
{
    proof {
        lemma_recip_bounded(d as int);
    }
    (SCALE * SCALE) / d
}

/// A reciprocal of a positive value is at most `SCALE * SCALE`.
pub proof fn lemma_recip_bounded(d: int)
    requires
        0 < d,
    ensures
        0 <= fp_recip_spec(d) <= SCALE * SCALE,
{
    assert(0 <= (SCALE * SCALE) as int / d <= SCALE * SCALE) by (nonlinear_arith)
        requires
            0 < d,
            SCALE == 65536,
    ;
}

/// A product of two values bounded by `COORD_BOUND` fits in `i64`, and its
/// quotient by `SCALE` is again bounded by `COORD_BOUND`.
proof fn lemma_bounded_product(a: int, b: int)
    requires
        -COORD_BOUND <= a <= COORD_BOUND,
        -COORD_BOUND <= b <= COORD_BOUND,
    ensures
        -0x1000_0000_0000_0000 <= a * b <= 0x1000_0000_0000_0000,
        -0x1000_0000_0000 <= trunc_div(a * b, SCALE as int) <= 0x1000_0000_0000,
{
    assert(-0x1000_0000_0000_0000 <= a * b <= 0x1000_0000_0000_0000) by (nonlinear_arith)
        requires
            -COORD_BOUND <= a <= COORD_BOUND,
            -COORD_BOUND <= b <= COORD_BOUND,
            COORD_BOUND == 0x4000_0000,
    ;
    let p = a * b;
    if p >= 0 {
        assert(p / (SCALE as int) <= 0x1000_0000_0000) by (nonlinear_arith)
            requires
                0 <= p <= 0x1000_0000_0000_0000,
                SCALE == 65536,
        ;
    } else {
        assert((-p) / (SCALE as int) <= 0x1000_0000_0000) by (nonlinear_arith)
            requires
                0 < -p <= 0x1000_0000_0000_0000,
                SCALE == 65536,
        ;
    }
}

} // verus!
