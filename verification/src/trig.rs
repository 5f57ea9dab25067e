//! Fixed-point circular functions on milliradian angles.
//!
//! `sin_mrad` and `cos_mrad` return the sine and cosine scaled by 1000. The
//! half-circle values come from the classical rational approximation
//! `sin t ~ 16 t (pi - t) / (5 pi^2 - 4 t (pi - t))`, carried out in integers
//! with `pi` rounded to `PI_MRAD`; the other half is its mirror image. The
//! definition below is the specification: the approximation itself, not the
//! real sine, is what the kinematics contracts are stated over. The bound
//! lemma pins both functions inside `[-MILLI, MILLI]`, which is what the
//! screen-boundary proofs rely on.
use vstd::prelude::*;

use crate::num::{isqrt, lemma_sqrt_of, lemma_tdiv_bound, sqrt_of};
use crate::{HALF_PI_MRAD, MILLI, PI_MRAD, TWO_PI_MRAD};

verus! {

/// Largest angle magnitude (in milliradians) the functions accept.
pub const ANGLE_ABS_MAX: i64 = 2_000_000_000_000;

/// `a` reduced to one turn: the representative of `a` in `[0, TWO_PI_MRAD)`.
pub open spec fn norm_mrad_spec(a: int) -> int {
    a % (TWO_PI_MRAD as int)
}

/// The rational half-circle approximation, for `x` in `[0, PI_MRAD]`.
pub open spec fn sin_half_spec(x: int) -> int {
    (16 * x * (PI_MRAD - x) * MILLI) / (5 * PI_MRAD * PI_MRAD - 4 * x * (PI_MRAD - x))
}

/// Sine of `a` milliradians, scaled by 1000.
pub open spec fn sin_mrad_spec(a: int) -> int {
    let n = norm_mrad_spec(a);
    if n <= PI_MRAD {
        sin_half_spec(n)
    } else {
        -sin_half_spec(n - PI_MRAD)
    }
}

/// Cosine of `a` milliradians, scaled by 1000: the sine a quarter turn ahead.
pub open spec fn cos_mrad_spec(a: int) -> int {
    sin_mrad_spec(a + HALF_PI_MRAD)
}

/// On `[0, PI_MRAD]` the half-circle approximation stays in `[0, MILLI]`.
proof fn lemma_sin_half_bounds(x: int)
    requires
        0 <= x <= PI_MRAD,
    ensures
        0 <= sin_half_spec(x) <= MILLI,
{
    let p = x * (PI_MRAD - x);
    let num = 16 * x * (PI_MRAD - x) * MILLI;
    let den = 5 * PI_MRAD * PI_MRAD - 4 * x * (PI_MRAD - x);
    assert(0 <= p <= 2_468_041) by (nonlinear_arith)
        requires
            0 <= x <= PI_MRAD,
            p == x * (PI_MRAD - x),
    ;
    assert(num == 16000 * p && den == 49_360_820 - 4 * p) by (nonlinear_arith)
        requires
            p == x * (PI_MRAD - x),
            num == 16 * x * (PI_MRAD - x) * MILLI,
            den == 5 * PI_MRAD * PI_MRAD - 4 * x * (PI_MRAD - x),
    ;
    assert(0 <= num && 1 <= den && num <= MILLI * den);
    assert(0 <= num / den <= MILLI) by (nonlinear_arith)
        requires
            0 <= num,
            1 <= den,
            num <= MILLI * den,
    ;
}

/// Away from its zeros the half-circle approximation is strictly positive:
/// its numerator dominates its denominator on all of `[1, PI_MRAD - 1]`.
proof fn lemma_sin_half_pos(x: int)
    requires
        1 <= x <= PI_MRAD - 1,
    ensures
        1 <= sin_half_spec(x) <= MILLI,
{
    lemma_sin_half_bounds(x);
    let p = x * (PI_MRAD - x);
    let num = 16 * x * (PI_MRAD - x) * MILLI;
    let den = 5 * PI_MRAD * PI_MRAD - 4 * x * (PI_MRAD - x);
    assert(3141 <= p <= 2_468_041) by (nonlinear_arith)
        requires
            1 <= x <= PI_MRAD - 1,
            p == x * (PI_MRAD - x),
    ;
    assert(num == 16000 * p && den == 49_360_820 - 4 * p) by (nonlinear_arith)
        requires
            p == x * (PI_MRAD - x),
            num == 16 * x * (PI_MRAD - x) * MILLI,
            den == 5 * PI_MRAD * PI_MRAD - 4 * x * (PI_MRAD - x),
    ;
    assert(num >= den >= 1);
    assert(num / den >= 1) by (nonlinear_arith)
        requires
            num >= den,
            den >= 1,
    ;
}

/// The sine approximation is strictly positive strictly inside the first half
/// circle.
pub proof fn lemma_sin_pos(a: int)
    requires
        1 <= a <= PI_MRAD - 1,
    ensures
        1 <= sin_mrad_spec(a) <= MILLI,
{
    assert(norm_mrad_spec(a) == a);
    lemma_sin_half_pos(a);
}

/// The cosine approximation is strictly positive strictly inside the first
/// quarter circle and its mirror image.
pub proof fn lemma_cos_pos(a: int)
    requires
        -(HALF_PI_MRAD - 1) <= a <= HALF_PI_MRAD - 1,
    ensures
        1 <= cos_mrad_spec(a) <= MILLI,
{
    lemma_sin_pos(a + HALF_PI_MRAD);
}

/// Shifting an angle shifts its representative: reducing `a + d` agrees with
/// reducing `norm_mrad_spec(a) + d`.
proof fn lemma_norm_shift(a: int, d: int)
    ensures
        norm_mrad_spec(a + d) == norm_mrad_spec(norm_mrad_spec(a) + d),
{
    let m = TWO_PI_MRAD as int;
    vstd::arithmetic::div_mod::lemma_add_mod_noop(a, d, m);
    vstd::arithmetic::div_mod::lemma_add_mod_noop(a % m, d, m);
    vstd::arithmetic::div_mod::lemma_mod_twice(a, m);
}

/// At every angle, at least one of the two circular functions has magnitude
/// one milliradian or more: the sine's only zeros sit where the cosine is at
/// its full amplitude.
pub proof fn lemma_sin_or_cos_unit(a: int)
    ensures
        1 <= sin_mrad_spec(a) || sin_mrad_spec(a) <= -1 || cos_mrad_spec(a) == MILLI
            || cos_mrad_spec(a) == -MILLI,
{
    let n = norm_mrad_spec(a);
    assert(0 <= n < TWO_PI_MRAD);
    if 1 <= n <= PI_MRAD - 1 {
        lemma_sin_half_pos(n);
    } else if PI_MRAD + 1 <= n <= TWO_PI_MRAD - 1 {
        lemma_sin_half_pos(n - PI_MRAD);
    } else {
        lemma_norm_shift(a, HALF_PI_MRAD as int);
        assert(sin_half_spec(HALF_PI_MRAD as int) == MILLI) by (nonlinear_arith);
        if n == 0 {
            assert(norm_mrad_spec(n + HALF_PI_MRAD) == HALF_PI_MRAD);
        } else {
            assert(n == PI_MRAD);
            assert(norm_mrad_spec(n + HALF_PI_MRAD) == PI_MRAD + HALF_PI_MRAD);
        }
    }
}

/// Both circular functions stay inside `[-MILLI, MILLI]` everywhere.
pub proof fn lemma_sin_cos_bounds(a: int)
    ensures
        -MILLI <= sin_mrad_spec(a) <= MILLI,
        -MILLI <= cos_mrad_spec(a) <= MILLI,
{
    let n = norm_mrad_spec(a);
    assert(0 <= n < TWO_PI_MRAD);
    if n <= PI_MRAD {
        lemma_sin_half_bounds(n);
    } else {
        lemma_sin_half_bounds(n - PI_MRAD);
    }
    let m = norm_mrad_spec(a + HALF_PI_MRAD);
    assert(0 <= m < TWO_PI_MRAD);
    if m <= PI_MRAD {
        lemma_sin_half_bounds(m);
    } else {
        lemma_sin_half_bounds(m - PI_MRAD);
    }
}

/// The half-circle approximation is monotone on the first quarter circle.
proof fn lemma_sin_half_monotone(x1: int, x2: int)
    requires
        0 <= x1 <= x2 <= HALF_PI_MRAD,
    ensures
        sin_half_spec(x1) <= sin_half_spec(x2),
{
    let p1 = x1 * (PI_MRAD - x1);
    let p2 = x2 * (PI_MRAD - x2);
    assert(0 <= p1 <= p2 <= 2_468_041) by (nonlinear_arith)
        requires
            0 <= x1 <= x2 <= HALF_PI_MRAD,
            p1 == x1 * (PI_MRAD - x1),
            p2 == x2 * (PI_MRAD - x2),
    ;
    let num1 = 16 * x1 * (PI_MRAD - x1) * MILLI;
    let den1 = 5 * PI_MRAD * PI_MRAD - 4 * x1 * (PI_MRAD - x1);
    let num2 = 16 * x2 * (PI_MRAD - x2) * MILLI;
    let den2 = 5 * PI_MRAD * PI_MRAD - 4 * x2 * (PI_MRAD - x2);
    assert(num1 == 16000 * p1 && den1 == 49_360_820 - 4 * p1 && num2 == 16000 * p2 && den2
        == 49_360_820 - 4 * p2) by (nonlinear_arith)
        requires
            p1 == x1 * (PI_MRAD - x1),
            p2 == x2 * (PI_MRAD - x2),
            num1 == 16 * x1 * (PI_MRAD - x1) * MILLI,
            den1 == 5 * PI_MRAD * PI_MRAD - 4 * x1 * (PI_MRAD - x1),
            num2 == 16 * x2 * (PI_MRAD - x2) * MILLI,
            den2 == 5 * PI_MRAD * PI_MRAD - 4 * x2 * (PI_MRAD - x2),
    ;
    vstd::arithmetic::div_mod::lemma_div_is_ordered_by_denominator(num1, den2, den1);
    vstd::arithmetic::div_mod::lemma_div_is_ordered(num1, num2, den2);
}

/// Holds when `q` is the first quarter-circle angle at which the half-circle
/// sine reaches `s`.
pub open spec fn is_asin_milli(s: int, q: int) -> bool {
    &&& 0 <= q <= HALF_PI_MRAD
    &&& sin_half_spec(q) >= s
    &&& q > 0 ==> sin_half_spec(q - 1) < s
}

/// The first quarter-circle angle whose sine reaches `s`, as a spec-level
/// function.
pub open spec fn asin_of(s: int) -> int {
    choose|q: int| is_asin_milli(s, q)
}

/// By monotonicity the crossing angle is unique, so any witness is what
/// `asin_of` denotes.
pub proof fn lemma_asin_of(s: int, q: int)
    requires
        is_asin_milli(s, q),
    ensures
        asin_of(s) == q,
{
    assert(is_asin_milli(s, asin_of(s))) by {
        assert(is_asin_milli(s, q));
    }
    let w = asin_of(s);
    if w < q {
        lemma_sin_half_monotone(w, q - 1);
    }
    if q < w {
        lemma_sin_half_monotone(q, w - 1);
    }
}

/// The first quarter-circle angle whose sine reaches `s`, by bisection.
fn asin_milli(s: i64) -> (q: i64)
    requires
        0 <= s <= MILLI,
    ensures
        is_asin_milli(s as int, q as int),
        q == asin_of(s as int),
        0 <= q <= HALF_PI_MRAD,
{
    if s == 0 {
        proof {
            lemma_asin_of(0, 0);
        }
        return 0;
    }
    let mut lo: i64 = 0;
    let mut hi: i64 = HALF_PI_MRAD;
    proof {
        assert(sin_half_spec(0) == 0) by (nonlinear_arith);
        assert(sin_half_spec(HALF_PI_MRAD as int) == MILLI) by (nonlinear_arith);
    }
    while lo + 1 < hi
        invariant
            0 <= lo < hi <= HALF_PI_MRAD,
            sin_half_spec(lo as int) < s,
            s <= sin_half_spec(hi as int),
            1 <= s <= MILLI,
        decreases hi - lo,
    {
        let mid = lo + (hi - lo) / 2;
        if sin_half(mid) < s {
            lo = mid;
        } else {
            hi = mid;
        }
    }
    proof {
        lemma_asin_of(s as int, hi as int);
    }
    hi
}

/// The angle of the point `(dx, dy)` in `[0, TWO_PI_MRAD)`: the quarter-circle
/// angle whose sine matches `|dy| / |(dx, dy)|`, reflected into the quadrant
/// the signs of `dx` and `dy` select.
pub open spec fn atan2_spec(dy: int, dx: int) -> int {
    if dx == 0 && dy == 0 {
        0
    } else {
        let r = sqrt_of(dx * dx + dy * dy);
        let s = (if dy >= 0 {
            dy
        } else {
            -dy
        }) * (MILLI as int) / r;
        let q = asin_of(s);
        if dx >= 0 && dy >= 0 {
            q
        } else if dx < 0 && dy >= 0 {
            PI_MRAD - q
        } else if dx < 0 {
            PI_MRAD + q
        } else {
            norm_mrad_spec(TWO_PI_MRAD - q)
        }
    }
}

/// The angle of the point `(dx, dy)` relative to the origin.
pub fn atan2_mrad(dy: i64, dx: i64) -> (a: i64)
    requires
        -1_400_000_000 <= dy <= 1_400_000_000,
        -1_400_000_000 <= dx <= 1_400_000_000,
    ensures
        a == atan2_spec(dy as int, dx as int),
        0 <= a < TWO_PI_MRAD,
{
    if dx == 0 && dy == 0 {
        return 0;
    }
    proof {
        assert(0 <= dx as int * dx <= 1_960_000_000_000_000_000 && 0 <= dy as int * dy
            <= 1_960_000_000_000_000_000 && 1 <= dx as int * dx + dy as int * dy)
            by (nonlinear_arith)
            requires
                -1_400_000_000 <= dy <= 1_400_000_000,
                -1_400_000_000 <= dx <= 1_400_000_000,
                dx != 0 || dy != 0,
        ;
    }
    let n = dx * dx + dy * dy;
    let r = isqrt(n);
    let ady = if dy >= 0 {
        dy
    } else {
        -dy
    };
    proof {
        assert(r >= 1) by (nonlinear_arith)
            requires
                0 <= r,
                1 <= n,
                n < (r as int + 1) * (r as int + 1),
        ;
        assert(0 <= ady <= r) by (nonlinear_arith)
            requires
                dy as int * dy <= n as int,
                n < (r as int + 1) * (r as int + 1),
                0 <= r,
                ady == (if dy >= 0 {
                    dy as int
                } else {
                    -(dy as int)
                }),
        ;
        assert(0 <= ady as int * MILLI <= MILLI * (r as int)) by (nonlinear_arith)
            requires
                0 <= ady <= r,
        ;
        lemma_tdiv_bound(ady as int * MILLI, r as int, MILLI as int);
    }
    let s = ady * MILLI / r;
    let q = asin_milli(s);
    let raw = if dx >= 0 && dy >= 0 {
        q
    } else if dx < 0 && dy >= 0 {
        PI_MRAD - q
    } else if dx < 0 {
        PI_MRAD + q
    } else {
        TWO_PI_MRAD - q
    };
    norm_mrad(raw)
}

/// `a` reduced to `[0, TWO_PI_MRAD)`.
pub fn norm_mrad(a: i64) -> (r: i64)
    requires
        -ANGLE_ABS_MAX - 10_000 <= a <= ANGLE_ABS_MAX + 10_000,
    ensures
        r == norm_mrad_spec(a as int),
        0 <= r < TWO_PI_MRAD,
{
    let m = a % TWO_PI_MRAD;
    if m < 0 {
        m + TWO_PI_MRAD
    } else {
        m
    }
}

/// The half-circle approximation, for `x` in `[0, PI_MRAD]`.
fn sin_half(x: i64) -> (r: i64)
    requires
        0 <= x <= PI_MRAD,
    ensures
        r == sin_half_spec(x as int),
        0 <= r <= MILLI,
{
    proof {
        lemma_sin_half_bounds(x as int);
        assert(0 <= x as int * (PI_MRAD - x) <= 2_468_041) by (nonlinear_arith)
            requires
                0 <= x <= PI_MRAD,
        ;
    }
    let p = x * (PI_MRAD - x);
    let r = (16 * p * MILLI) / (5 * PI_MRAD * PI_MRAD - 4 * p);
    proof {
        assert(16 * p * MILLI == 16 * (x as int) * (PI_MRAD - x as int) * MILLI
            && 5 * PI_MRAD * PI_MRAD - 4 * p == 5 * PI_MRAD * PI_MRAD - 4 * (x as int) * (
        PI_MRAD - x as int)) by (nonlinear_arith)
            requires
                p == x as int * (PI_MRAD - x as int),
        ;
    }
    r
}

/// Sine of `a` milliradians, scaled by 1000.
pub fn sin_mrad(a: i64) -> (r: i64)
    requires
        -ANGLE_ABS_MAX - 2_000 <= a <= ANGLE_ABS_MAX + 2_000,
    ensures
        r == sin_mrad_spec(a as int),
        -MILLI <= r <= MILLI,
{
    let n = norm_mrad(a);
    if n <= PI_MRAD {
        sin_half(n)
    } else {
        -sin_half(n - PI_MRAD)
    }
}

/// Cosine of `a` milliradians, scaled by 1000.
pub fn cos_mrad(a: i64) -> (r: i64)
    requires
        -ANGLE_ABS_MAX <= a <= ANGLE_ABS_MAX,
    ensures
        r == cos_mrad_spec(a as int),
        -MILLI <= r <= MILLI,
{
    sin_mrad(a + HALF_PI_MRAD)
}

} // verus!
