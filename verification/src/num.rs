//! Small verified integer helpers shared by the kinematics code: a clamp to a
//! closed interval and an integer square root.
use vstd::prelude::*;

verus! {

/// The value `v` pulled into the closed interval `[lo, hi]`.
pub open spec fn clamp_spec(v: int, lo: int, hi: int) -> int {
    if v < lo {
        lo
    } else if v > hi {
        hi
    } else {
        v
    }
}

/// Clamps `v` to the closed interval `[lo, hi]`.
pub fn clamp(v: i64, lo: i64, hi: i64) -> (r: i64)
    requires
        lo <= hi,
    ensures
        r == clamp_spec(v as int, lo as int, hi as int),
        lo <= r <= hi,
{
    if v < lo {
        lo
    } else if v > hi {
        hi
    } else {
        v
    }
}

/// Division rounding toward zero (what `/` does on machine integers), for a
/// positive divisor. Contracts use it wherever a scaled quantity of either
/// sign is divided back down.
pub open spec fn tdiv(a: int, b: int) -> int {
    if a >= 0 {
        a / b
    } else {
        -((-a) / b)
    }
}

/// Division toward zero keeps any symmetric bound: if `|a| <= c * b` then
/// `|a / b| <= c`.
pub proof fn lemma_tdiv_bound(a: int, b: int, c: int)
    requires
        1 <= b,
        0 <= c,
        -(c * b) <= a <= c * b,
    ensures
        -c <= tdiv(a, b) <= c,
{
    if a >= 0 {
        assert(a / b <= c) by (nonlinear_arith)
            requires
                1 <= b,
                0 <= a <= c * b,
        ;
        assert(a / b >= 0) by (nonlinear_arith)
            requires
                1 <= b,
                0 <= a,
        ;
    } else {
        assert((-a) / b <= c) by (nonlinear_arith)
            requires
                1 <= b,
                0 <= -a <= c * b,
        ;
        assert((-a) / b >= 0) by (nonlinear_arith)
            requires
                1 <= b,
                0 <= -a,
        ;
    }
}

/// Division toward zero of a value at least as large as the (positive)
/// divisor does not collapse to zero.
pub proof fn lemma_tdiv_nonzero(a: int, b: int)
    requires
        1 <= b,
        b <= a || a <= -b,
    ensures
        1 <= tdiv(a, b) || tdiv(a, b) <= -1,
{
    if a >= b {
        assert(a / b >= 1) by (nonlinear_arith)
            requires
                1 <= b <= a,
        ;
    } else {
        assert((-a) / b >= 1) by (nonlinear_arith)
            requires
                1 <= b <= -a,
        ;
    }
}

/// Divides `a` by `b`, rounding toward zero.
pub fn tdiv_i64(a: i64, b: i64) -> (r: i64)
    requires
        1 <= b,
        a > i64::MIN,
    ensures
        r == tdiv(a as int, b as int),
{
    if a >= 0 {
        a / b
    } else {
        -((-a) / b)
    }
}

/// Holds when `r` is the integer square root (rounded down) of `n`.
pub open spec fn is_sqrt(n: int, r: int) -> bool {
    &&& r >= 0
    &&& r * r <= n
    &&& n < (r + 1) * (r + 1)
}

/// The integer square root of `n`, as a spec-level function.
pub open spec fn sqrt_of(n: int) -> int {
    choose|r: int| is_sqrt(n, r)
}

/// Any witness of `is_sqrt` is what `sqrt_of` denotes.
pub proof fn lemma_sqrt_of(n: int, r: int)
    requires
        is_sqrt(n, r),
    ensures
        sqrt_of(n) == r,
{
    assert(is_sqrt(n, sqrt_of(n))) by {
        assert(is_sqrt(n, r));
    }
    lemma_sqrt_unique(n, sqrt_of(n), r);
}

/// The integer square root is unique, so any two witnesses agree.
pub proof fn lemma_sqrt_unique(n: int, a: int, b: int)
    requires
        is_sqrt(n, a),
        is_sqrt(n, b),
    ensures
        a == b,
{
    if a < b {
        assert((a + 1) * (a + 1) <= b * b) by (nonlinear_arith)
            requires
                0 <= a,
                a + 1 <= b,
        ;
    }
    if b < a {
        assert((b + 1) * (b + 1) <= a * a) by (nonlinear_arith)
            requires
                0 <= b,
                b + 1 <= a,
        ;
    }
}

/// Integer square root by bisection.
pub fn isqrt(n: i64) -> (r: i64)
    requires
        0 <= n <= 4_000_000_000_000_000_000,
    ensures
        is_sqrt(n as int, r as int),
        r == sqrt_of(n as int),
{
    if n == 0 {
        proof {
            lemma_sqrt_of(0, 0);
        }
        return 0;
    }
    let mut lo: i64 = 0;
    let mut hi: i64 = 2_000_000_001;
    assert(4_000_000_000_000_000_000i64 < 2_000_000_001 * 2_000_000_001) by (nonlinear_arith);
    while lo + 1 < hi
        invariant
            0 <= lo < hi <= 2_000_000_001,
            lo * lo <= n,
            n < hi * hi,
        decreases hi - lo,
    {
        let mid = lo + (hi - lo) / 2;
        assert(mid * mid <= 4_000_000_004_000_000_001) by (nonlinear_arith)
            requires
                0 <= mid <= 2_000_000_001,
        ;
        if mid * mid <= n {
            lo = mid;
        } else {
            hi = mid;
        }
    }
    proof {
        lemma_sqrt_of(n as int, lo as int);
    }
    lo
}

} // verus!
