//! Clamped and saturating arithmetic, fixed-point scaling, the integer
//! sine and easing curves, and filtering facts shared across the crate.

use vstd::prelude::*;
use crate::constants::{PI_MRAD, TWO_PI_MRAD};

verus! {

// ---------------------------------------------------------------------------
// Saturating / clamping arithmetic.
//
// Every quantity of the simulation lives in a stated interval and is clamped
// at the write site, so no update can push a value out of range however large
// the (untrusted) frame delta is.
// ---------------------------------------------------------------------------

/// `v` clamped into `[lo, hi]`.
pub open spec fn spec_clamp(v: int, lo: int, hi: int) -> int {
    if v < lo {
        lo
    } else if v > hi {
        hi
    } else {
        v
    }
}

/// Clamp `v` into `[lo, hi]`.
pub fn clamp_i64(v: i64, lo: i64, hi: i64) -> (r: i64)
    requires
        lo <= hi,
    ensures
        r == spec_clamp(v as int, lo as int, hi as int),
{
    if v < lo {
        lo
    } else if v > hi {
        hi
    } else {
        v
    }
}

/// The smaller of `a` and `b`.
pub open spec fn spec_min_i(a: int, b: int) -> int {
    if a < b {
        a
    } else {
        b
    }
}

/// The larger of `a` and `b`.
pub open spec fn spec_max_i(a: int, b: int) -> int {
    if a > b {
        a
    } else {
        b
    }
}

pub fn min_i64(a: i64, b: i64) -> (r: i64)
    ensures
        r == spec_min_i(a as int, b as int),
{
    if a < b {
        a
    } else {
        b
    }
}

pub fn max_i64(a: i64, b: i64) -> (r: i64)
    ensures
        r == spec_max_i(a as int, b as int),
{
    if a > b {
        a
    } else {
        b
    }
}

// ---------------------------------------------------------------------------
// Fixed-point scaling.
//
// `v * m / d` with truncation toward zero: the workhorse for integrating a
// velocity over a frame delta and for every rate conversion.
// ---------------------------------------------------------------------------

/// `v * m / d`, truncated toward zero (`m >= 0`, `d > 0`).
pub open spec fn spec_scaled(v: int, m: int, d: int) -> int {
    if v >= 0 {
        (v * m) / d
    } else {
        -(((-v) * m) / d)
    }
}

/// Compute `v * m / d` truncated toward zero, without overflow.
pub fn scaled(v: i64, m: i64, d: i64) -> (r: i64)
    requires
        -4_000_000_000_000 <= v <= 4_000_000_000_000,
        0 <= m <= 1_000_000,
        0 < d <= 1_000_000_000,
    ensures
        r == spec_scaled(v as int, m as int, d as int),
        v >= 0 ==> r >= 0,
        v < 0 ==> r <= 0,
        m <= d && v >= 0 ==> r <= v,
        m <= d && v < 0 ==> v <= r,
{
    if v >= 0 {
        proof {
            assert((v as int) * (m as int) <= 4_000_000_000_000 * 1_000_000)
                by (nonlinear_arith)
                requires
                    0 <= v <= 4_000_000_000_000,
                    0 <= m <= 1_000_000,
            {
            }
        }
        let prod: u64 = (v as u64) * (m as u64);
        let q: u64 = prod / (d as u64);
        proof {
            assert(q <= prod) by (nonlinear_arith)
                requires
                    q == prod / (d as u64),
                    1 <= (d as u64),
            {
            }
            if m <= d {
                assert((v as int) * (m as int) <= (v as int) * (d as int)) by (nonlinear_arith)
                    requires
                        0 <= v,
                        0 <= m <= d,
                {
                }
                vstd::arithmetic::div_mod::lemma_div_is_ordered(
                    (v as int) * (m as int),
                    (v as int) * (d as int),
                    d as int,
                );
                vstd::arithmetic::div_mod::lemma_div_multiples_vanish(v as int, d as int);
            }
        }
        q as i64
    } else {
        let w: i64 = -v;
        proof {
            assert((w as int) * (m as int) <= 4_000_000_000_000 * 1_000_000)
                by (nonlinear_arith)
                requires
                    0 <= w <= 4_000_000_000_000,
                    0 <= m <= 1_000_000,
            {
            }
        }
        let prod: u64 = (w as u64) * (m as u64);
        let q: u64 = prod / (d as u64);
        proof {
            assert(q <= prod) by (nonlinear_arith)
                requires
                    q == prod / (d as u64),
                    1 <= (d as u64),
            {
            }
            if m <= d {
                assert((w as int) * (m as int) <= (w as int) * (d as int)) by (nonlinear_arith)
                    requires
                        0 <= w,
                        0 <= m <= d,
                {
                }
                vstd::arithmetic::div_mod::lemma_div_is_ordered(
                    (w as int) * (m as int),
                    (w as int) * (d as int),
                    d as int,
                );
                vstd::arithmetic::div_mod::lemma_div_multiples_vanish(w as int, d as int);
            }
        }
        -(q as i64)
    }
}

/// `a + b` saturating at `cap` (for monotone accumulators such as run time
/// and score).
pub open spec fn spec_sat_add_cap(a: int, b: int, cap: int) -> int {
    if a + b > cap {
        cap
    } else {
        a + b
    }
}

pub fn sat_add_cap(a: i64, b: i64, cap: i64) -> (r: i64)
    requires
        0 <= a <= cap,
        0 <= b,
        b <= i64::MAX - cap,
    ensures
        r == spec_sat_add_cap(a as int, b as int, cap as int),
        0 <= r <= cap,
{
    if a + b > cap {
        cap
    } else {
        a + b
    }
}

/// Saturating `u64` addition, for the currency counter.
pub open spec fn spec_sat_add_u64(a: int, b: int) -> int {
    if a + b > u64::MAX {
        u64::MAX as int
    } else {
        a + b
    }
}

pub fn sat_add_u64(a: u64, b: u64) -> (r: u64)
    ensures
        r == spec_sat_add_u64(a as int, b as int),
{
    if a <= u64::MAX - b {
        a + b
    } else {
        u64::MAX
    }
}

// ---------------------------------------------------------------------------
// Sine on the milli-radian circle.
//
// The terrain baseline and the collectible spawn rhythm oscillate with a
// sine wave. On integers the wave is the classical rational approximation
// 16 x (pi - x) / (5 pi^2 - 4 x (pi - x)) on the first half turn, mirrored
// and negated on the second; its values stay in [-1000, 1000] (thousandths
// of the amplitude).
// ---------------------------------------------------------------------------

/// One half-wave of the rational sine approximation, on `[0, PI_MRAD]`.
pub open spec fn spec_sin_half(x: int) -> int {
    (16_000 * (x * (PI_MRAD - x))) / (5 * PI_MRAD * PI_MRAD - 4 * (x * (PI_MRAD - x)))
}

/// Sine of `x` milli-radians, in thousandths, for `x` in `[0, TWO_PI_MRAD)`.
pub open spec fn spec_sin_milli(x: int) -> int {
    if x <= PI_MRAD {
        spec_sin_half(x)
    } else {
        -spec_sin_half(x - PI_MRAD)
    }
}

proof fn lemma_sin_half_bounds(x: int)
    requires
        0 <= x <= PI_MRAD,
    ensures
        0 <= spec_sin_half(x) <= 1_000,
{
    let q = x * (PI_MRAD - x);
    assert(0 <= q && 4 * q <= PI_MRAD * PI_MRAD) by (nonlinear_arith)
        requires
            0 <= x <= PI_MRAD,
            q == x * (PI_MRAD - x),
    {
    }
    assert(5 * PI_MRAD * PI_MRAD - 4 * q >= 4 * PI_MRAD * PI_MRAD);
    assert(16_000 * q <= 1_000 * (5 * PI_MRAD * PI_MRAD - 4 * q));
    assert(16_000 * q >= 0);
    vstd::arithmetic::div_mod::lemma_div_is_ordered(
        16_000 * q,
        1_000 * (5 * PI_MRAD * PI_MRAD - 4 * q),
        5 * PI_MRAD * PI_MRAD - 4 * q,
    );
    assert((1_000 * (5 * PI_MRAD * PI_MRAD - 4 * q)) / (5 * PI_MRAD * PI_MRAD - 4 * q)
        == 1_000) by (nonlinear_arith)
        requires
            5 * PI_MRAD * PI_MRAD - 4 * q >= 4 * PI_MRAD * PI_MRAD,
            PI_MRAD == 3_142,
    {
    }
}

fn sin_half(x: i64) -> (r: i64)
    requires
        0 <= x <= PI_MRAD,
    ensures
        r == spec_sin_half(x as int),
        0 <= r <= 1_000,
{
    proof {
        lemma_sin_half_bounds(x as int);
        assert(x * (PI_MRAD - x) >= 0 && 4 * (x * (PI_MRAD - x)) <= PI_MRAD * PI_MRAD)
            by (nonlinear_arith)
            requires
                0 <= x <= PI_MRAD,
        {
        }
    }
    let q: u64 = (x as u64) * ((PI_MRAD - x) as u64);
    let den: u64 = 5 * (PI_MRAD as u64) * (PI_MRAD as u64) - 4 * q;
    ((16_000 * q) / den) as i64
}

/// Sine of `x` milli-radians, in thousandths.
pub fn sin_milli(x: i64) -> (r: i64)
    requires
        0 <= x < TWO_PI_MRAD,
    ensures
        r == spec_sin_milli(x as int),
        -1_000 <= r <= 1_000,
{
    if x <= PI_MRAD {
        sin_half(x)
    } else {
        proof {
            lemma_sin_half_bounds(x - PI_MRAD);
        }
        -sin_half(x - PI_MRAD)
    }
}

// ---------------------------------------------------------------------------
// Easing.
// ---------------------------------------------------------------------------

/// Quadratic ease-out on thousandths: `1 - (1 - t)^2` scaled to `[0, 1000]`.
pub open spec fn spec_ease_out_quad(t: int) -> int {
    1_000 - ((1_000 - t) * (1_000 - t)) / 1_000
}

/// Quadratic ease-out curve for fade animation, on `[0, 1000]`.
pub fn ease_out_quad(t: i64) -> (r: i64)
    requires
        0 <= t <= 1_000,
    ensures
        r == spec_ease_out_quad(t as int),
        0 <= r <= 1_000,
{
    let u: u64 = (1_000 - t) as u64;
    proof {
        assert(u * u <= 1_000_000) by (nonlinear_arith)
            requires
                u <= 1_000,
        {
        }
    }
    1_000 - ((u * u) / 1_000) as i64
}


// ---------------------------------------------------------------------------
// Filtering facts shared by the culling and pickup passes.
// ---------------------------------------------------------------------------

/// Filtering after a push appends the pushed element exactly when it
/// satisfies the predicate.
pub proof fn lemma_filter_push<A>(s: Seq<A>, x: A, pred: spec_fn(A) -> bool)
    ensures
        s.push(x).filter(pred) == (if pred(x) {
            s.filter(pred).push(x)
        } else {
            s.filter(pred)
        }),
{
    reveal(Seq::filter);
    assert(s.push(x).drop_last() =~= s);
}

/// Filtering is idempotent: a second pass over an already filtered
/// sequence removes nothing, and every element the first pass kept
/// satisfies the predicate.
pub proof fn lemma_filter_idempotent<A>(s: Seq<A>, pred: spec_fn(A) -> bool)
    ensures
        s.filter(pred).filter(pred) == s.filter(pred),
        forall|i: int| 0 <= i < s.filter(pred).len() ==> pred(#[trigger] s.filter(pred)[i]),
    decreases s.len(),
{
    reveal(Seq::filter);
    if s.len() == 0 {
        assert(s.filter(pred) =~= Seq::<A>::empty());
    } else {
        let t = s.drop_last();
        lemma_filter_idempotent(t, pred);
        assert(s =~= t.push(s.last()));
        lemma_filter_push(t, s.last(), pred);
        if pred(s.last()) {
            lemma_filter_push(t.filter(pred), s.last(), pred);
        }
    }
}

/// Filtering keeps every element that satisfies the predicate: nothing is
/// skipped.
pub proof fn lemma_filter_complete<A>(s: Seq<A>, pred: spec_fn(A) -> bool)
    ensures
        forall|i: int|
            0 <= i < s.len() && pred(#[trigger] s[i]) ==> s.filter(pred).contains(s[i]),
    decreases s.len(),
{
    reveal(Seq::filter);
    if s.len() > 0 {
        let t = s.drop_last();
        lemma_filter_complete(t, pred);
        lemma_filter_push(t, s.last(), pred);
        assert(s =~= t.push(s.last()));
        assert forall|i: int| 0 <= i < s.len() && pred(s[i]) implies s.filter(pred).contains(
            s[i]) by {
            if i < t.len() {
                assert(t[i] == s[i]);
                assert(t.filter(pred).contains(s[i]));
                let k = choose|k: int| 0 <= k < t.filter(pred).len() && t.filter(pred)[k]
                    == s[i];
                if pred(s.last()) {
                    assert(s.filter(pred)[k] == s[i]);
                } else {
                    assert(s.filter(pred)[k] == s[i]);
                }
            } else {
                assert(s[i] == s.last());
                assert(s.filter(pred).last() == s.last());
            }
        }
    }
}

} // verus!
