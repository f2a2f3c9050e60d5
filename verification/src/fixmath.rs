//! Exact integer arithmetic helpers for the fixed-point world quantities:
//! an integer square root and a scaling step, with the rounding pinned down.

use vstd::prelude::*;
use vstd::arithmetic::div_mod::{lemma_div_is_ordered, lemma_div_multiples_vanish};
use crate::SCALE;

verus! {

/// `r` is the integer square root of `n`, rounded down.
pub open spec fn is_sqrt_floor(n: int, r: int) -> bool {
    0 <= r && r * r <= n && n < (r + 1) * (r + 1)
}

/// The integer square root of `n`, rounded down.
pub open spec fn sqrt_floor(n: int) -> int {
    choose|r: int| is_sqrt_floor(n, r)
}

/// Any witness of `is_sqrt_floor` is `sqrt_floor` itself: the rounded-down
/// square root is unique.
pub proof fn lemma_sqrt_floor_eq(n: int, r: int)
    requires
        is_sqrt_floor(n, r),
    ensures
        sqrt_floor(n) == r,
{
    let s = sqrt_floor(n);
    assert(is_sqrt_floor(n, s));
    if s < r {
        assert((s + 1) * (s + 1) <= r * r) by (nonlinear_arith)
            requires
                0 <= s,
                s + 1 <= r,
        ;
        assert(false);
    }
    if r < s {
        assert((r + 1) * (r + 1) <= s * s) by (nonlinear_arith)
            requires
                0 <= r,
                r + 1 <= s,
        ;
        assert(false);
    }
}

/// Every non-negative integer has a rounded-down square root.
pub proof fn lemma_sqrt_floor_exists(n: int)
    requires
        0 <= n,
    ensures
        is_sqrt_floor(n, sqrt_floor(n)),
    decreases n,
{
    if n == 0 {
        assert(is_sqrt_floor(0, 0));
    } else {
        lemma_sqrt_floor_exists(n - 1);
        let r0 = sqrt_floor(n - 1);
        if n < (r0 + 1) * (r0 + 1) {
            assert(is_sqrt_floor(n, r0));
        } else {
            assert(n == (r0 + 1) * (r0 + 1));
            assert((r0 + 1) * (r0 + 1) < (r0 + 2) * (r0 + 2)) by (nonlinear_arith)
                requires
                    0 <= r0,
            ;
            assert(is_sqrt_floor(n, r0 + 1));
        }
    }
}

/// Integer square root, rounded down.
pub fn isqrt(n: u128) -> (r: u128)
    ensures
        is_sqrt_floor(n as int, r as int),
        r <= 0xffff_ffff_ffff_ffff,
{
    let mut lo: u128 = 0;
    let mut hi: u128 = 0xffff_ffff_ffff_ffff;
    proof {
        assert(0x1_0000_0000_0000_0000int * 0x1_0000_0000_0000_0000int
            == 0x1_0000_0000_0000_0000_0000_0000_0000_0000int);
    }
    while lo < hi
        invariant
            lo <= hi <= 0xffff_ffff_ffff_ffff,
            (lo as int) * (lo as int) <= n as int,
            (n as int) < ((hi as int) + 1) * ((hi as int) + 1),
        decreases hi - lo,
    {
        let mid: u128 = lo + (hi - lo + 1) / 2;
        proof {
            assert((mid as int) * (mid as int)
                < 0x1_0000_0000_0000_0000_0000_0000_0000_0000int) by (nonlinear_arith)
                requires
                    mid <= 0xffff_ffff_ffff_ffff,
            ;
        }
        if mid * mid <= n {
            lo = mid;
        } else {
            hi = mid - 1;
        }
    }
    lo
}

/// A per-second rate `v` applied over `dt` time sub-units: `v * dt / SCALE`,
/// rounded toward zero.
pub open spec fn scaled(v: int, dt: int) -> int {
    if v >= 0 {
        v * dt / (SCALE as int)
    } else {
        -((-v) * dt / (SCALE as int))
    }
}

/// Dividing a product `a * b` by a bound `c` of `a` stays within `b`.
pub proof fn lemma_div_le(a: int, b: int, c: int)
    requires
        0 <= a <= c,
        0 <= b,
        0 < c,
    ensures
        0 <= a * b / c <= b,
{
    assert(a * b <= c * b) by (nonlinear_arith)
        requires
            0 <= a <= c,
            0 <= b,
    ;
    lemma_div_is_ordered(a * b, c * b, c);
    lemma_div_multiples_vanish(b, c);
    assert(c * b / c == b);
    assert(0 <= a * b / c) by (nonlinear_arith)
        requires
            0 <= a,
            0 <= b,
            0 < c,
    ;
}

/// `scaled` keeps the sign of the rate and is bounded by the scaled bounds of
/// its arguments.
pub proof fn lemma_scaled_bound(v: int, dt: int, vb: int, db: int)
    requires
        -vb <= v <= vb,
        0 <= dt <= db,
        0 <= vb,
    ensures
        -(vb * db / (SCALE as int)) <= scaled(v, dt) <= vb * db / (SCALE as int),
        v >= 0 ==> scaled(v, dt) >= 0,
        v <= 0 ==> scaled(v, dt) <= 0,
{
    let m = if v >= 0 { v } else { -v };
    assert(0 <= m <= vb);
    assert(m * dt <= vb * db) by (nonlinear_arith)
        requires
            0 <= m <= vb,
            0 <= dt <= db,
    ;
    assert(0 <= m * dt) by (nonlinear_arith)
        requires
            0 <= m,
            0 <= dt,
    ;
    lemma_div_is_ordered(m * dt, vb * db, SCALE as int);
    lemma_div_is_ordered(0, m * dt, SCALE as int);
    assert(0int / (SCALE as int) == 0);
    if v < 0 {
        assert(m * dt == (-v) * dt) by (nonlinear_arith)
            requires
                m == -v,
        ;
        assert(scaled(v, dt) == -((-v) * dt / (SCALE as int)));
        assert(scaled(v, dt) <= 0);
    }
    if v == 0 {
        assert(v * dt == 0) by (nonlinear_arith)
            requires
                v == 0,
        ;
        assert(scaled(v, dt) == 0);
    }
}

/// The scaled step applied by movement integration, in executable form.
pub fn scale_step(v: i64, dt: i64) -> (r: i64)
    requires
        -1_000_000_000 <= v <= 1_000_000_000,
        0 <= dt <= 1_000_000_000,
    ensures
        r == scaled(v as int, dt as int),
{
    let mag: u64 = if v >= 0 {
        v as u64
    } else {
        (-v) as u64
    };
    proof {
        assert((mag as int) * (dt as int) <= 1_000_000_000_000_000_000int) by (nonlinear_arith)
            requires
                0 <= mag as int <= 1_000_000_000,
                0 <= dt as int <= 1_000_000_000,
        ;
    }
    let step: u64 = mag * (dt as u64) / (SCALE as u64);
    if v >= 0 {
        step as i64
    } else {
        -(step as i64)
    }
}

} // verus!
