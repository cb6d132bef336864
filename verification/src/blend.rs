//! The four ways from one control point to the next, in integer arithmetic.
//!
//! A position between two control points is given by a fraction `n / d` of the
//! way, `0 <= n <= d`. Every blend rounds down to the grid.

use crate::key::{Interpolation, Key};
use crate::screen::{saturate, saturate_coord, ScreenPos, UNIT};
use vstd::arithmetic::div_mod::{
    lemma_div_is_ordered, lemma_div_multiples_vanish, lemma_fundamental_div_mod,
    lemma_fundamental_div_mod_converse_div, lemma_mod_bound,
};
use vstd::prelude::*;

verus! {

/// The value at the fraction `n / d` of the straight way from `a` to `b`.
pub open spec fn lerp(a: int, b: int, n: int, d: int) -> int {
    a + ((b - a) * n) / d
}

/// Numerator of the eased fraction that the cosine mode puts in the place of
/// `n / d`. The ease `(1 - cos(pi * u)) / 2` is taken by Bhaskara's rational
/// form of the cosine, `5 u^2 / (2 (1 + u^2))` on the first half and its mirror
/// image on the second, which stays within a thousandth of it.
pub open spec fn ease_num(n: int, d: int) -> int {
    if 2 * n <= d {
        5 * (n * n)
    } else {
        2 * (d * d) - 3 * ((d - n) * (d - n))
    }
}

/// Denominator of the eased fraction.
pub open spec fn ease_den(n: int, d: int) -> int {
    if 2 * n <= d {
        2 * (d * d + n * n)
    } else {
        2 * (d * d + (d - n) * (d - n))
    }
}

/// The value at the fraction `n / d` of the eased way from `a` to `b`.
pub open spec fn cosine(a: int, b: int, n: int, d: int) -> int {
    lerp(a, b, ease_num(n, d), ease_den(n, d))
}

/// The value at the fraction `n / d` of the quadratic Bézier curve from `a` to
/// `b` with the control value `u`, by de Casteljau's construction.
pub open spec fn bezier2(a: int, u: int, b: int, n: int, d: int) -> int {
    lerp(lerp(a, u, n, d), lerp(u, b, n, d), n, d)
}

/// The value at the fraction `n / d` of the cubic Bézier curve from `a` to `b`
/// with the control values `u` and `v`, by de Casteljau's construction.
pub open spec fn bezier3(a: int, u: int, v: int, b: int, n: int, d: int) -> int {
    lerp(bezier2(a, u, v, n, d), bezier2(u, v, b, n, d), n, d)
}

/// Whether a step with the given threshold, in ten-thousandths, still holds
/// the first value at the fraction `n / d`.
pub open spec fn step_holds(threshold: int, n: int, d: int) -> bool {
    n * UNIT < threshold * d
}

/// One coordinate of the point at the fraction `n / d` of the way from a
/// control point to the next one, as the mode of the first has it. `a` and
/// `b` are the coordinates of the two points, `u` and `v` those of their
/// handles where they are Bézier points. A Bézier point followed by another
/// one runs a cubic curve to it, whose second control point mirrors the next
/// handle and which stops at the edge of the grid; followed by any other
/// point, a quadratic curve.
pub open spec fn blended(
    mode: Interpolation,
    next: Interpolation,
    a: int,
    u: int,
    v: int,
    b: int,
    n: int,
    d: int,
) -> int {
    match mode {
        Interpolation::Step(threshold) => if step_holds(threshold as int, n, d) {
            a
        } else {
            b
        },
        Interpolation::Linear => lerp(a, b, n, d),
        Interpolation::Cosine => cosine(a, b, n, d),
        Interpolation::Bezier(_) => if next is Bezier {
            saturate(bezier3(a, u, 2 * b - v, b, n, d))
        } else {
            bezier2(a, u, b, n, d)
        },
    }
}

/// The handle of a Bézier point; the point itself for any other.
pub open spec fn handle_of(key: Key) -> ScreenPos {
    match key.interpolation {
        Interpolation::Bezier(handle) => handle,
        _ => key.value,
    }
}

/// The point of the curve at parameter `t` between the control point `k0` and
/// the next one `k1`.
pub open spec fn blend(k0: Key, k1: Key, t: int) -> ScreenPos
    recommends
        k0.t <= t < k1.t,
{
    let n = t - k0.t;
    let d = k1.t - k0.t;
    let (a, b) = (k0.value, k1.value);
    let (u, v) = (handle_of(k0), handle_of(k1));
    ScreenPos {
        x: blended(
            k0.interpolation,
            k1.interpolation,
            a.x as int,
            u.x as int,
            v.x as int,
            b.x as int,
            n,
            d,
        ) as i32,
        y: blended(
            k0.interpolation,
            k1.interpolation,
            a.y as int,
            u.y as int,
            v.y as int,
            b.y as int,
            n,
            d,
        ) as i32,
    }
}

/// A straight blend starts at `a`, ends at `b` and never leaves the range
/// between them.
pub proof fn lemma_lerp_between(a: int, b: int, n: int, d: int)
    requires
        0 <= n <= d,
        0 < d,
    ensures
        a <= b ==> a <= lerp(a, b, n, d) <= b,
        b <= a ==> b <= lerp(a, b, n, d) <= a,
        n == 0 ==> lerp(a, b, n, d) == a,
        n == d ==> lerp(a, b, n, d) == b,
{
    let x = (b - a) * n;
    let full = (b - a) * d;
    lemma_div_multiples_vanish(b - a, d);
    assert(full / d == b - a) by {
        assert(full == d * (b - a)) by (nonlinear_arith)
            requires
                full == (b - a) * d,
        ;
    }
    assert(0int / d == 0) by {
        lemma_div_multiples_vanish(0, d);
        assert(d * 0 == 0);
    }
    if a <= b {
        assert(0 <= x <= full) by (nonlinear_arith)
            requires
                x == (b - a) * n,
                full == (b - a) * d,
                0 <= n <= d,
                a <= b,
        ;
        lemma_div_is_ordered(0, x, d);
        lemma_div_is_ordered(x, full, d);
    } else {
        assert(full <= x <= 0) by (nonlinear_arith)
            requires
                x == (b - a) * n,
                full == (b - a) * d,
                0 <= n <= d,
                b < a,
        ;
        lemma_div_is_ordered(full, x, d);
        lemma_div_is_ordered(x, 0, d);
    }
    if n == 0 {
        assert(x == 0) by (nonlinear_arith)
            requires
                x == (b - a) * n,
                n == 0,
        ;
    }
    if n == d {
        assert(x == full);
    }
}

/// The eased fraction is a fraction: it runs from nought, at the start, to
/// one, at the end.
pub proof fn lemma_ease_is_fraction(n: int, d: int)
    requires
        0 <= n <= d,
        0 < d,
    ensures
        0 <= ease_num(n, d) <= ease_den(n, d),
        0 < ease_den(n, d) <= 4 * (d * d),
        n == 0 ==> ease_num(n, d) == 0,
        n == d ==> ease_num(n, d) == ease_den(n, d),
{
    let m = d - n;
    assert(0 <= n * n <= d * d && 0 <= m * m <= d * d && 0 < d * d) by (nonlinear_arith)
        requires
            0 <= n <= d,
            0 < d,
            m == d - n,
    ;
    if 2 * n <= d {
        assert(4 * (n * n) <= d * d) by (nonlinear_arith)
            requires
                0 <= n,
                2 * n <= d,
        ;
    } else {
        assert(4 * (m * m) <= d * d) by (nonlinear_arith)
            requires
                0 <= m,
                2 * m <= d,
        ;
    }
    if n == 0 {
        assert(n * n == 0) by (nonlinear_arith)
            requires
                n == 0,
        ;
    }
    if n == d {
        assert(m * m == 0) by (nonlinear_arith)
            requires
                m == 0,
        ;
    }
}

/// The eased blend starts at `a`, ends at `b` and never leaves the range
/// between them.
pub proof fn lemma_cosine_between(a: int, b: int, n: int, d: int)
    requires
        0 <= n <= d,
        0 < d,
    ensures
        a <= b ==> a <= cosine(a, b, n, d) <= b,
        b <= a ==> b <= cosine(a, b, n, d) <= a,
        n == 0 ==> cosine(a, b, n, d) == a,
        n == d ==> cosine(a, b, n, d) == b,
{
    lemma_ease_is_fraction(n, d);
    lemma_lerp_between(a, b, ease_num(n, d), ease_den(n, d));
}

/// A quadratic Bézier blend starts at `a`, ends at `b` and stays within the
/// range that `a`, `u` and `b` span.
pub proof fn lemma_bezier2_between(a: int, u: int, b: int, n: int, d: int, lo: int, hi: int)
    requires
        0 <= n <= d,
        0 < d,
        lo <= a <= hi,
        lo <= u <= hi,
        lo <= b <= hi,
    ensures
        lo <= bezier2(a, u, b, n, d) <= hi,
        lo <= lerp(a, u, n, d) <= hi,
        lo <= lerp(u, b, n, d) <= hi,
        n == 0 ==> bezier2(a, u, b, n, d) == a,
        n == d ==> bezier2(a, u, b, n, d) == b,
{
    lemma_lerp_between(a, u, n, d);
    lemma_lerp_between(u, b, n, d);
    lemma_lerp_between(lerp(a, u, n, d), lerp(u, b, n, d), n, d);
}

/// A cubic Bézier blend starts at `a`, ends at `b` and stays within the range
/// that `a`, `u`, `v` and `b` span.
pub proof fn lemma_bezier3_between(
    a: int,
    u: int,
    v: int,
    b: int,
    n: int,
    d: int,
    lo: int,
    hi: int,
)
    requires
        0 <= n <= d,
        0 < d,
        lo <= a <= hi,
        lo <= u <= hi,
        lo <= v <= hi,
        lo <= b <= hi,
    ensures
        lo <= bezier3(a, u, v, b, n, d) <= hi,
        n == 0 ==> bezier3(a, u, v, b, n, d) == a,
        n == d ==> bezier3(a, u, v, b, n, d) == b,
{
    lemma_bezier2_between(a, u, v, n, d, lo, hi);
    lemma_bezier2_between(u, v, b, n, d, lo, hi);
    lemma_lerp_between(bezier2(a, u, v, n, d), bezier2(u, v, b, n, d), n, d);
}

/// One coordinate of a blend stays on the grid, starts at `a` for every mode
/// but a step whose threshold is not above nought, and would end at `b`.
pub proof fn lemma_blended_on_grid(
    mode: Interpolation,
    next: Interpolation,
    a: i32,
    u: i32,
    v: i32,
    b: i32,
    n: int,
    d: int,
)
    requires
        0 <= n <= d,
        0 < d,
    ensures
        i32::MIN <= blended(mode, next, a as int, u as int, v as int, b as int, n, d) <= i32::MAX,
        n == 0 && !(mode matches Interpolation::Step(threshold) && threshold <= 0) ==> blended(
            mode,
            next,
            a as int,
            u as int,
            v as int,
            b as int,
            n,
            d,
        ) == a,
        n == d && !(mode matches Interpolation::Step(threshold) && threshold > UNIT) ==> blended(
            mode,
            next,
            a as int,
            u as int,
            v as int,
            b as int,
            n,
            d,
        ) == b,
{
    match mode {
        Interpolation::Step(threshold) => {
            assert(n == 0 ==> (n * UNIT < threshold * d) == (threshold > 0)) by (nonlinear_arith)
                requires
                    d > 0,
            ;
            assert(n == d ==> (n * UNIT < threshold * d) == (threshold > UNIT)) by (nonlinear_arith)
                requires
                    d > 0,
            ;
        },
        Interpolation::Linear => {
            lemma_lerp_between(a as int, b as int, n, d);
        },
        Interpolation::Cosine => {
            lemma_cosine_between(a as int, b as int, n, d);
        },
        Interpolation::Bezier(_) => {
            if next is Bezier {
                lemma_bezier3_between(
                    a as int,
                    u as int,
                    2 * b - v,
                    b as int,
                    n,
                    d,
                    -(BLEND_MAX as int),
                    BLEND_MAX as int,
                );
            } else {
                lemma_bezier2_between(
                    a as int,
                    u as int,
                    b as int,
                    n,
                    d,
                    i32::MIN as int,
                    i32::MAX as int,
                );
            }
        },
    }
}

/// Every mode but the step starts a segment exactly on its control point; a
/// step does so where its threshold is above nought.
pub proof fn lemma_blend_starts_on_key(k0: Key, k1: Key)
    requires
        k0.t < k1.t,
        !(k0.interpolation matches Interpolation::Step(threshold) && threshold <= 0),
    ensures
        blend(k0, k1, k0.t as int) == k0.value,
{
    let d = k1.t - k0.t;
    let (u, v) = (handle_of(k0), handle_of(k1));
    lemma_blended_on_grid(k0.interpolation, k1.interpolation, k0.value.x, u.x, v.x, k1.value.x, 0, d);
    lemma_blended_on_grid(k0.interpolation, k1.interpolation, k0.value.y, u.y, v.y, k1.value.y, 0, d);
}

/// Greatest magnitude of a value that the blends are asked to work on: wide
/// enough for a mirrored handle.
pub const BLEND_MAX: i64 = 0x2_0000_0000;

/// Greatest denominator of a fraction that the blends are asked to work on:
/// wide enough for an eased fraction.
pub const WEIGHT_MAX: i128 = 0x10_0000_0000_0000_0000;

/// Quotient rounded down, also of a negative numerator.
fn div_floor(num: i128, den: i128) -> (q: i128)
    requires
        0 < den <= WEIGHT_MAX,
        -0x1_0000_0000_0000_0000_0000_0000_0000 <= num <= 0x1_0000_0000_0000_0000_0000_0000_0000,
    ensures
        q == num / den,
{
    if num >= 0 {
        num / den
    } else {
        let raised: i128 = -num + (den - 1);
        let up: i128 = raised / den;
        proof {
            lemma_fundamental_div_mod(raised as int, den as int);
            lemma_mod_bound(raised as int, den as int);
            let r = raised as int % den as int;
            assert(num == -up * den + (den - 1 - r)) by (nonlinear_arith)
                requires
                    raised == den * up + r,
                    raised == -num + (den - 1),
            ;
            lemma_fundamental_div_mod_converse_div(num as int, den as int, -up, den - 1 - r);
        }
        -up
    }
}

fn lerp_wide(a: i64, b: i64, n: i128, d: i128) -> (r: i64)
    requires
        0 <= n <= d,
        0 < d <= WEIGHT_MAX,
        -BLEND_MAX <= a <= BLEND_MAX,
        -BLEND_MAX <= b <= BLEND_MAX,
    ensures
        r == lerp(a as int, b as int, n as int, d as int),
        -BLEND_MAX <= r <= BLEND_MAX,
{
    let diff: i128 = b as i128 - a as i128;
    assert(-0x1_0000_0000_0000_0000_0000_0000_0000 <= diff * n
        <= 0x1_0000_0000_0000_0000_0000_0000_0000) by (nonlinear_arith)
        requires
            -0x4_0000_0000 <= diff <= 0x4_0000_0000,
            0 <= n <= 0x10_0000_0000_0000_0000,
    ;
    let q: i128 = div_floor(diff * n, d);
    proof {
        lemma_lerp_between(a as int, b as int, n as int, d as int);
    }
    (a as i128 + q) as i64
}

/// The eased fraction for `n / d`, as numerator and denominator.
fn ease(n: i64, d: i64) -> (w: (i128, i128))
    requires
        0 <= n <= d,
        0 < d <= 0xffff_ffff,
    ensures
        w.0 == ease_num(n as int, d as int),
        w.1 == ease_den(n as int, d as int),
        0 <= w.0 <= w.1,
        0 < w.1 <= WEIGHT_MAX,
{
    let m: i128 = d as i128 - n as i128;
    let nn: i128 = n as i128;
    let dd: i128 = d as i128;
    proof {
        lemma_ease_is_fraction(n as int, d as int);
        assert(0 <= nn * nn <= dd * dd && 0 <= m * m <= dd * dd && dd * dd <= 0xffff_ffff
            * 0xffff_ffff) by (nonlinear_arith)
            requires
                0 <= nn <= dd,
                m == dd - nn,
                dd <= 0xffff_ffff,
        ;
    }
    if 2 * nn <= dd {
        (5 * (nn * nn), 2 * (dd * dd + nn * nn))
    } else {
        (2 * (dd * dd) - 3 * (m * m), 2 * (dd * dd + m * m))
    }
}

fn bezier2_wide(a: i64, u: i64, b: i64, n: i128, d: i128) -> (r: i64)
    requires
        0 <= n <= d,
        0 < d <= WEIGHT_MAX,
        -BLEND_MAX <= a <= BLEND_MAX,
        -BLEND_MAX <= u <= BLEND_MAX,
        -BLEND_MAX <= b <= BLEND_MAX,
    ensures
        r == bezier2(a as int, u as int, b as int, n as int, d as int),
        -BLEND_MAX <= r <= BLEND_MAX,
{
    let first: i64 = lerp_wide(a, u, n, d);
    let second: i64 = lerp_wide(u, b, n, d);
    lerp_wide(first, second, n, d)
}

fn bezier3_wide(a: i64, u: i64, v: i64, b: i64, n: i128, d: i128) -> (r: i64)
    requires
        0 <= n <= d,
        0 < d <= WEIGHT_MAX,
        -BLEND_MAX <= a <= BLEND_MAX,
        -BLEND_MAX <= u <= BLEND_MAX,
        -BLEND_MAX <= v <= BLEND_MAX,
        -BLEND_MAX <= b <= BLEND_MAX,
    ensures
        r == bezier3(a as int, u as int, v as int, b as int, n as int, d as int),
        -BLEND_MAX <= r <= BLEND_MAX,
{
    let first: i64 = bezier2_wide(a, u, v, n, d);
    let second: i64 = bezier2_wide(u, v, b, n, d);
    lerp_wide(first, second, n, d)
}

/// Computes one coordinate of a blend.
fn blend_value(
    mode: Interpolation,
    next: Interpolation,
    a: i32,
    u: i32,
    v: i32,
    b: i32,
    n: i64,
    d: i64,
) -> (r: i32)
    requires
        0 <= n < d <= 0xffff_ffff,
    ensures
        r == blended(mode, next, a as int, u as int, v as int, b as int, n as int, d as int),
{
    proof {
        lemma_blended_on_grid(mode, next, a, u, v, b, n as int, d as int);
    }
    match mode {
        Interpolation::Step(threshold) => {
            assert(-0x1_0000_0000_0000_0000 <= threshold * d <= 0x1_0000_0000_0000_0000 && 0 <= n
                * UNIT <= 0x1_0000_0000_0000_0000) by (nonlinear_arith)
                requires
                    -0x8000_0000 <= threshold <= 0x8000_0000,
                    0 <= n < d <= 0xffff_ffff,
                    UNIT == 10_000,
            ;
            if (n as i128) * (UNIT as i128) < (threshold as i128) * (d as i128) {
                a
            } else {
                b
            }
        },
        Interpolation::Linear => lerp_wide(a as i64, b as i64, n as i128, d as i128) as i32,
        Interpolation::Cosine => {
            let w: (i128, i128) = ease(n, d);
            lerp_wide(a as i64, b as i64, w.0, w.1) as i32
        },
        Interpolation::Bezier(_) => match next {
            Interpolation::Bezier(_) => {
                let mirrored: i64 = 2 * (b as i64) - v as i64;
                saturate_coord(
                    bezier3_wide(a as i64, u as i64, mirrored, b as i64, n as i128, d as i128),
                )
            },
            _ => bezier2_wide(a as i64, u as i64, b as i64, n as i128, d as i128) as i32,
        },
    }
}

/// The handle of a Bézier point; the point itself for any other.
fn handle(key: &Key) -> (h: ScreenPos)
    ensures
        h == handle_of(*key),
{
    match key.interpolation {
        Interpolation::Bezier(handle) => handle,
        _ => key.value,
    }
}

/// Computes the point of the curve at parameter `t` between two control
/// points.
pub fn blend_between(k0: &Key, k1: &Key, t: i32) -> (p: ScreenPos)
    requires
        k0.t <= t < k1.t,
    ensures
        p == blend(*k0, *k1, t as int),
{
    let n: i64 = t as i64 - k0.t as i64;
    let d: i64 = k1.t as i64 - k0.t as i64;
    let (a, b) = (k0.value, k1.value);
    let (u, v) = (handle(k0), handle(k1));
    ScreenPos {
        x: blend_value(k0.interpolation, k1.interpolation, a.x, u.x, v.x, b.x, n, d),
        y: blend_value(k0.interpolation, k1.interpolation, a.y, u.y, v.y, b.y, n, d),
    }
}

} // verus!
