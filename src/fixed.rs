//! Fixed-point scalars: a length, speed or factor is an integer count of
//! millionths of a unit, so every step of the world is exact and repeatable.
use vstd::prelude::*;

verus! {

/// One whole unit, in millionths.
pub const ONE: i64 = 1_000_000;

/// Integer division rounding toward zero, for a positive divisor.
pub open spec fn trunc_div(a: int, d: int) -> int {
    if a >= 0 {
        a / d
    } else {
        -((-a) / d)
    }
}

/// Product of two fixed-point values, rounded toward zero.
pub open spec fn fmul(a: int, b: int) -> int {
    trunc_div(a * b, ONE as int)
}

/// `v` rounded to the nearest whole unit, halves away from zero.
pub open spec fn round_unit(v: int) -> int {
    if v >= 0 {
        ((v + ONE / 2) / (ONE as int)) * ONE
    } else {
        -((((-v) + ONE / 2) / (ONE as int)) * ONE)
    }
}

pub open spec fn abs(v: int) -> int {
    if v >= 0 {
        v
    } else {
        -v
    }
}

pub proof fn lemma_trunc_div_bound(a: int, d: int)
    requires
        d > 0,
    ensures
        abs(trunc_div(a, d)) <= abs(a),
        abs(trunc_div(a, d)) * d <= abs(a),
{
    if a >= 0 {
        assert(0 <= a / d <= a) by (nonlinear_arith)
            requires
                a >= 0,
                d > 0,
        ;
        assert((a / d) * d <= a) by (nonlinear_arith)
            requires
                a >= 0,
                d > 0,
        ;
    } else {
        let m = -a;
        assert(0 <= m / d <= m) by (nonlinear_arith)
            requires
                m >= 0,
                d > 0,
        ;
        assert((m / d) * d <= m) by (nonlinear_arith)
            requires
                m >= 0,
                d > 0,
        ;
    }
}

/// Integer division rounding toward zero.
pub fn div_trunc(a: i64, d: i64) -> (q: i64)
    requires
        d > 0,
        a > i64::MIN,
    ensures
        q == trunc_div(a as int, d as int),
{
    proof {
        lemma_trunc_div_bound(a as int, d as int);
    }
    if a >= 0 {
        a / d
    } else {
        let m: i64 = -a;
        -(m / d)
    }
}

/// Fixed-point product, rounded toward zero. The factors are bounded so that
/// the exact product and the result both fit.
pub fn mul_fixed(a: i64, b: i64) -> (r: i64)
    requires
        abs(a as int) <= 0x100_0000_0000,
        abs(b as int) <= 0x100_0000_0000,
    ensures
        r == fmul(a as int, b as int),
        abs(r as int) <= abs(a as int) * abs(b as int) / (ONE as int),
{
    proof {
        let ai: int = a as int;
        let bi: int = b as int;
        assert(abs(ai * bi) == abs(ai) * abs(bi)) by (nonlinear_arith);
        assert(abs(ai) * abs(bi) <= 0x100_0000_0000 * 0x100_0000_0000) by (nonlinear_arith)
            requires
                0 <= abs(ai) <= 0x100_0000_0000,
                0 <= abs(bi) <= 0x100_0000_0000,
        ;
    }
    let p: i128 = (a as i128) * (b as i128);
    proof {
        lemma_trunc_div_bound(p as int, ONE as int);
        let m = abs(p as int);
        assert(m / (ONE as int) * (ONE as int) <= m) by (nonlinear_arith)
            requires
                m >= 0,
        ;
        assert(abs(trunc_div(p as int, ONE as int)) <= m / (ONE as int));
    }
    let q: i128 = if p >= 0 {
        p / (ONE as i128)
    } else {
        let m: i128 = -p;
        -(m / (ONE as i128))
    };
    proof {
        assert(0x100_0000_0000int * 0x100_0000_0000int / (ONE as int) < 0x2000_0000_0000_0000);
    }
    q as i64
}

/// Rounds to the nearest whole unit, halves away from zero.
pub fn round_to_unit(v: i64) -> (r: i64)
    requires
        abs(v as int) <= 0x100_0000_0000_0000,
    ensures
        r == round_unit(v as int),
{
    let half: i64 = ONE / 2;
    if v >= 0 {
        let w: i64 = (v + half) / ONE;
        assert(w * ONE <= v + half) by (nonlinear_arith)
            requires
                w == (v + half) / (ONE as int),
                v + half >= 0,
        ;
        w * ONE
    } else {
        let m: i64 = -v;
        let w: i64 = (m + half) / ONE;
        assert(w * ONE <= m + half) by (nonlinear_arith)
            requires
                w == (m + half) / (ONE as int),
                m + half >= 0,
        ;
        -(w * ONE)
    }
}

} // verus!
