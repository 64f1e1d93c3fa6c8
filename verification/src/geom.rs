//! Line geometry in integer fixed-point arithmetic.
//!
//! A two-point segment is emitted in polar form: a Euclidean length and an
//! angle in degrees. Both are carried in hundredths of their unit (centi
//! values): the length is the correctly rounded value of
//! `100 * sqrt(dx^2 + dy^2)`, and the angle approximates
//! `100 * atan2(dy, dx)` in degrees through an octant reduction and a cubic
//! correction polynomial, exact on the octant boundaries (multiples of 45
//! degrees).

use vstd::arithmetic::div_mod::{
    lemma_div_is_ordered, lemma_fundamental_div_mod_converse_div,
};
use vstd::prelude::*;

verus! {

/// The integer square root: the largest `r` with `r * r <= n`.
pub closed spec fn spec_isqrt(n: nat) -> nat
    decreases n,
{
    if n == 0 {
        0
    } else {
        let r = spec_isqrt((n - 1) as nat);
        if (r + 1) * (r + 1) <= n {
            r + 1
        } else {
            r
        }
    }
}

pub proof fn lemma_isqrt_bounds(n: nat)
    ensures
        spec_isqrt(n) * spec_isqrt(n) <= n,
        n < (spec_isqrt(n) + 1) * (spec_isqrt(n) + 1),
    decreases n,
{
    if n == 0 {
        assert(spec_isqrt(0) == 0);
        assert(n < (spec_isqrt(n) + 1) * (spec_isqrt(n) + 1)) by (nonlinear_arith)
            requires
                n == 0,
                spec_isqrt(n) == 0,
        ;
    } else {
        lemma_isqrt_bounds((n - 1) as nat);
        let r = spec_isqrt((n - 1) as nat);
        if (r + 1) * (r + 1) <= n {
            assert(spec_isqrt(n) == r + 1);
            assert(n - 1 < (r + 1) * (r + 1));
            assert(n < (r + 2) * (r + 2)) by (nonlinear_arith)
                requires
                    n <= (r + 1) * (r + 1),
                    r >= 0,
            ;
            assert(n < (spec_isqrt(n) + 1) * (spec_isqrt(n) + 1));
        } else {
            assert(spec_isqrt(n) == r);
        }
    }
}

pub proof fn lemma_isqrt_unique(n: nat, a: nat)
    requires
        a * a <= n,
        n < (a + 1) * (a + 1),
    ensures
        a == spec_isqrt(n),
{
    lemma_isqrt_bounds(n);
    let b = spec_isqrt(n);
    if a < b {
        assert(false) by (nonlinear_arith)
            requires
                a < b,
                b * b <= n,
                n < (a + 1) * (a + 1),
            ;
    }
    if b < a {
        assert(false) by (nonlinear_arith)
            requires
                b < a,
                a * a <= n,
                n < (b + 1) * (b + 1),
            ;
    }
}

/// Computes the integer square root by binary search.
pub fn isqrt_u128(m: u128) -> (r: u128)
    requires
        m < 0x40000000000000000000000000000000u128,  // 2^126
    ensures
        r == spec_isqrt(m as nat),
        r < 0x8000000000000000u128,  // 2^63
{
    let mut lo: u128 = 0;
    let mut hi: u128 = 0x8000000000000000;  // 2^63
    assert(hi * hi == 0x40000000000000000000000000000000u128) by (nonlinear_arith)
        requires
            hi == 0x8000000000000000u128,
    ;
    while hi - lo > 1
        invariant
            lo < hi <= 0x8000000000000000u128,
            lo * lo <= m,
            m < hi * hi,
        decreases hi - lo,
    {
        let mid = lo + (hi - lo) / 2;
        assert(lo < mid < hi);
        assert(mid * mid < 0x40000000000000000000000000000000u128) by (nonlinear_arith)
            requires
                0 <= mid < 0x8000000000000000u128,
        ;
        if mid * mid <= m {
            lo = mid;
        } else {
            hi = mid;
        }
    }
    proof {
        assert(hi == lo + 1);
        lemma_isqrt_unique(m as nat, lo as nat);
    }
    lo
}

/// The emitted length of a segment with the given coordinate differences, in
/// hundredths of a unit: the nearest integer to `100 * sqrt(dx^2 + dy^2)`.
pub open spec fn spec_line_length_centi(dx: int, dy: int) -> int {
    (spec_isqrt((40000 * (dx * dx + dy * dy)) as nat) + 1) as int / 2
}

/// Computes the emitted length of a segment in hundredths of a unit.
pub fn line_length_centi(dx: i64, dy: i64) -> (r: u64)
    requires
        -0xffffffff <= dx <= 0xffffffff,
        -0xffffffff <= dy <= 0xffffffff,
    ensures
        r == spec_line_length_centi(dx as int, dy as int),
{
    proof {
        assert(0 <= dx as int * dx as int <= 0xffffffff * 0xffffffff) by (nonlinear_arith)
            requires
                -0xffffffff <= dx as int <= 0xffffffff,
        ;
        assert(0 <= dy as int * dy as int <= 0xffffffff * 0xffffffff) by (nonlinear_arith)
            requires
                -0xffffffff <= dy as int <= 0xffffffff,
        ;
    }
    let dx2: i128 = dx as i128 * dx as i128;
    let dy2: i128 = dy as i128 * dy as i128;
    let n: u128 = 40000 * ((dx2 + dy2) as u128);
    let s = isqrt_u128(n);
    proof {
        lemma_isqrt_bounds(n as nat);
    }
    ((s + 1) / 2) as u64
}

/// The scaled ratio `num / den` in hundred-thousandths, rounded to nearest:
/// the fixed-point argument handed to the arctangent polynomial.
pub open spec fn spec_ratio_e5(num: int, den: int) -> int {
    (200000 * num + den) / (2 * den)
}

pub proof fn lemma_ratio_e5_bounds(num: int, den: int)
    requires
        0 <= num <= den,
        1 <= den,
    ensures
        0 <= spec_ratio_e5(num, den) <= 100000,
        num == 0 ==> spec_ratio_e5(num, den) == 0,
        num == den ==> spec_ratio_e5(num, den) == 100000,
{
    let x = 200000 * num + den;
    let d = 2 * den;
    assert(200000 * num <= 200000 * den);
    assert(x <= 200001 * den);
    assert(201 * den >= 0);
    assert(200001 * den == 100000 * d + den);
    lemma_fundamental_div_mod_converse_div(200001 * den, d, 100000, den);
    lemma_div_is_ordered(x, 200001 * den, d);
    assert(x >= 0);
    vstd::arithmetic::div_mod::lemma_div_pos_is_pos(x, d);
    if num == 0 {
        lemma_fundamental_div_mod_converse_div(den, d, 0, den);
    }
    if num == den {
        assert(200000 * num + den == 200001 * den);
    }
}

/// The first-octant arctangent of `t / 100000`, in hundredths of a degree:
/// `45 * x` degrees plus the cubic correction
/// `x * (1 - x) * (12.437 + 11.730 * x - 8.170 * x^2)` degrees at `x = t / 100000`,
/// rounded to the nearest hundredth.
pub open spec fn spec_atan_poly_centi(t: int) -> int {
    (45000 * t * 1000000000000000 + t * (100000 - t) * (
    124370000000000 + 11730 * t * 100000 - 8170 * t * t) + 500000000000000000000)
        / 1000000000000000000000
}

pub proof fn lemma_atan_poly_centi_bounds(t: int)
    requires
        0 <= t <= 100000,
    ensures
        0 <= spec_atan_poly_centi(t) <= 4500,
        t == 0 ==> spec_atan_poly_centi(t) == 0,
        t == 100000 ==> spec_atan_poly_centi(t) == 4500,
{
    let q: int = 100000;
    let coef = 124370000000000 + 11730 * t * 100000 - 8170 * t * t;
    let inner = 45000 * t * 1000000000000000 + t * (q - t) * coef;
    // The correction coefficient stays within [0, 16650 * 10^10].
    assert(8170 * t * t <= 124370000000000) by (nonlinear_arith)
        requires
            0 <= t <= 100000,
    ;
    assert(coef <= 166500000000000) by (nonlinear_arith)
        requires
            0 <= t <= 100000,
            coef == 124370000000000 + 11730 * t * 100000 - 8170 * t * t,
        // 32680 * (16650e10 - coef) == (16340 t - 11730e5)^2 + 87940e10 >= 0
    ;
    // Hence the whole numerator stays within [0, 45000 * 10^20].
    assert(inner >= 0) by (nonlinear_arith)
        requires
            0 <= t <= 100000,
            coef >= 0,
            inner == 45000 * t * 1000000000000000 + t * (100000 - t) * coef,
    ;
    assert(inner <= 4500000000000000000000000) by (nonlinear_arith)
        requires
            0 <= t <= 100000,
            0 <= coef <= 166500000000000,
            inner == 45000 * t * 1000000000000000 + t * (100000 - t) * coef,
        // inner <= t * 10^10 * (61650 * 10^5 - 16650 * t) <= 45000 * 10^20
        // since 150 * (10^5 - t) * (300 * 10^5 - 111 * t) >= 0
    ;
    let d: int = 1000000000000000000000;
    lemma_div_is_ordered(500000000000000000000int, inner + 500000000000000000000, d);
    lemma_fundamental_div_mod_converse_div(500000000000000000000, d, 0, 500000000000000000000);
    lemma_div_is_ordered(
        inner + 500000000000000000000,
        4500000000000000000000000int + 500000000000000000000,
        d,
    );
    lemma_fundamental_div_mod_converse_div(
        4500500000000000000000000,
        d,
        4500,
        500000000000000000000,
    );
    if t == 0 {
        assert(inner == 0) by (nonlinear_arith)
            requires
                t == 0,
                inner == 45000 * t * 1000000000000000 + t * (100000 - t) * coef,
        ;
    }
    if t == 100000 {
        assert(inner == 4500000000000000000000000) by (nonlinear_arith)
            requires
                t == 100000,
                inner == 45000 * t * 1000000000000000 + t * (100000 - t) * coef,
        ;
        assert(spec_atan_poly_centi(t) == 4500);
    }
}

/// The first-octant arctangent of `num / den` in hundredths of a degree.
pub open spec fn spec_atan_oct_centi(num: int, den: int) -> int {
    spec_atan_poly_centi(spec_ratio_e5(num, den))
}

pub proof fn lemma_atan_oct_centi_bounds(num: int, den: int)
    requires
        0 <= num <= den,
        1 <= den,
    ensures
        0 <= spec_atan_oct_centi(num, den) <= 4500,
        num == 0 ==> spec_atan_oct_centi(num, den) == 0,
        num == den ==> spec_atan_oct_centi(num, den) == 4500,
{
    lemma_ratio_e5_bounds(num, den);
    lemma_atan_poly_centi_bounds(spec_ratio_e5(num, den));
}

/// The emitted angle of a segment with the given coordinate differences, in
/// hundredths of a degree within (-18000, 18000]: the octant reduction of
/// `atan2(dy, dx)` over the first-octant arctangent.
pub open spec fn spec_line_angle_centi(dy: int, dx: int) -> int {
    let ax = if dx < 0 { -dx } else { dx };
    let ay = if dy < 0 { -dy } else { dy };
    let r = if ax == 0 && ay == 0 {
        0
    } else if ay <= ax {
        spec_atan_oct_centi(ay, ax)
    } else {
        9000 - spec_atan_oct_centi(ax, ay)
    };
    let r2 = if dx < 0 { 18000 - r } else { r };
    if dy < 0 { -r2 } else { r2 }
}

/// Computes the first-octant arctangent in hundredths of a degree.
fn atan_oct_centi(num: u64, den: u64) -> (r: u64)
    requires
        num <= den,
        1 <= den <= 0xffffffff,
    ensures
        r == spec_atan_oct_centi(num as int, den as int),
        r <= 4500,
{
    let t: u64 = (((200000u128 * num as u128) + den as u128) / (2 * den as u128)) as u64;
    proof {
        lemma_ratio_e5_bounds(num as int, den as int);
        assert(t == spec_ratio_e5(num as int, den as int));
    }
    let tt: u128 = t as u128;
    proof {
        assert(8170 * tt * tt <= 124370000000000) by (nonlinear_arith)
            requires
                0 <= tt <= 100000,
        ;
        assert(tt * (100000 - tt) <= 10000000000) by (nonlinear_arith)
            requires
                0 <= tt <= 100000,
        ;
    }
    let coef: u128 = 124370000000000 + 11730 * tt * 100000 - 8170 * tt * tt;
    proof {
        assert(tt * (100000 - tt) * coef <= 10000000000 * 241670000000000) by (nonlinear_arith)
            requires
                0 <= tt * (100000 - tt) <= 10000000000,
                0 <= coef <= 241670000000000,
        ;
    }
    let inner: u128 = 45000 * tt * 1000000000000000 + tt * (100000 - tt) * coef;
    let cd: u128 = (inner + 500000000000000000000) / 1000000000000000000000;
    proof {
        lemma_atan_poly_centi_bounds(tt as int);
    }
    cd as u64
}

/// Computes the emitted angle of a segment in hundredths of a degree.
pub fn line_angle_centi(dy: i64, dx: i64) -> (a: i64)
    requires
        -0xffffffff <= dy <= 0xffffffff,
        -0xffffffff <= dx <= 0xffffffff,
    ensures
        a == spec_line_angle_centi(dy as int, dx as int),
        -18000 <= a <= 18000,
{
    let ax: u64 = if dx < 0 { (-dx) as u64 } else { dx as u64 };
    let ay: u64 = if dy < 0 { (-dy) as u64 } else { dy as u64 };
    let r: u64 = if ax == 0 && ay == 0 {
        0
    } else if ay <= ax {
        atan_oct_centi(ay, ax)
    } else {
        let o = atan_oct_centi(ax, ay);
        9000 - o
    };
    let r2: i64 = if dx < 0 { 18000 - r as i64 } else { r as i64 };
    if dy < 0 { -r2 } else { r2 }
}

/// Reversing a segment keeps its emitted length: the length of the segment
/// from `b` to `a` equals the length from `a` to `b`.
pub proof fn lemma_reversal_keeps_length(dx: int, dy: int)
    ensures
        spec_line_length_centi(-dx, -dy) == spec_line_length_centi(dx, dy),
{
    assert((-dx) * (-dx) == dx * dx) by (nonlinear_arith);
    assert((-dy) * (-dy) == dy * dy) by (nonlinear_arith);
}

/// Reversing a segment with distinct endpoints turns its emitted angle by
/// exactly 180 degrees: the two angles differ by exactly 18000 hundredths.
pub proof fn lemma_reversal_turns_angle_by_half_turn(dy: int, dx: int)
    requires
        dx != 0 || dy != 0,
    ensures
        spec_line_angle_centi(-dy, -dx) - spec_line_angle_centi(dy, dx) == 18000
            || spec_line_angle_centi(dy, dx) - spec_line_angle_centi(-dy, -dx) == 18000,
{
    let ax = if dx < 0 { -dx } else { dx };
    let ay = if dy < 0 { -dy } else { dy };
    if ay <= ax {
        lemma_atan_oct_centi_bounds(ay, ax);
    } else {
        lemma_atan_oct_centi_bounds(ax, ay);
    }
}

} // verus!
