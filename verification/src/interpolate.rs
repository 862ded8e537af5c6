//! Boundary-crossing interpolation.
//!
//! A contour crosses a cell side between two corners whose values straddle
//! the level.  The crossing position is the exact rational
//!
//! ```text
//! mu     = (level - v0) / (v1 - v0)
//! s(mu)  = mu^2 * (3 - 2 mu)          cosine-shaped smoothing curve
//! newMu  = 1/2 + (s(mu) - 1/2) * k    k = smoothing factor in [0, 1]
//! p      = p0 + newMu * (p1 - p0)
//! ```
//!
//! rounded once, half away from zero, onto the coordinate lattice.  The
//! computation is exact integer arithmetic, so the two cells sharing a side
//! obtain bit-identical crossing points.

use vstd::arithmetic::div_mod::{lemma_fundamental_div_mod, lemma_mod_bound};
use vstd::prelude::*;

use crate::types::{
    point_in_range, smoothing_in_range, value_in_range, Point, Side, SmoothingFactor,
};

verus! {

/// Magnitude of an integer.
pub open spec fn iabs(a: int) -> int {
    if a >= 0 {
        a
    } else {
        -a
    }
}

/// Quotient `n / d` rounded to the nearest integer, halves away from zero.
/// Meaningful for `d > 0`.
pub open spec fn round_div(n: int, d: int) -> int {
    if n >= 0 {
        (2 * n + d) / (2 * d)
    } else {
        -((2 * (-n) + d) / (2 * d))
    }
}

/// The rounded quotient is within half a divisor of the exact one:
/// `|round_div(n, d) * d - n| <= d / 2`.
pub proof fn lemma_round_div_err(n: int, d: int)
    requires
        0 < d,
    ensures
        -d <= 2 * (round_div(n, d) * d - n) <= d,
{
    if n >= 0 {
        let q = (2 * n + d) / (2 * d);
        let r = (2 * n + d) % (2 * d);
        lemma_fundamental_div_mod(2 * n + d, 2 * d);
        lemma_mod_bound(2 * n + d, 2 * d);
        assert(2 * (q * d - n) == d - r) by (nonlinear_arith)
            requires
                2 * n + d == (2 * d) * q + r,
        ;
    } else {
        let m = -n;
        let q = (2 * m + d) / (2 * d);
        let r = (2 * m + d) % (2 * d);
        lemma_fundamental_div_mod(2 * m + d, 2 * d);
        lemma_mod_bound(2 * m + d, 2 * d);
        assert(2 * (q * d - m) == d - r) by (nonlinear_arith)
            requires
                2 * m + d == (2 * d) * q + r,
        ;
        assert(round_div(n, d) == -q);
        assert(2 * ((-q) * d - n) == -(2 * (q * d - m))) by (nonlinear_arith)
            requires
                m == -n,
        ;
    }
}

/// If `n` lies between `a * d` and `b * d`, the rounded quotient lies
/// between `a` and `b`.
pub proof fn lemma_round_div_bounds(n: int, d: int, a: int, b: int)
    requires
        0 < d,
        a * d <= n <= b * d,
    ensures
        a <= round_div(n, d) <= b,
{
    lemma_round_div_err(n, d);
    let q = round_div(n, d);
    assert(a <= q && q <= b) by (nonlinear_arith)
        requires
            0 < d,
            a * d <= n <= b * d,
            -d <= 2 * (q * d - n) <= d,
    ;
}

/// Numerator of the smoothing curve `s(mu) = mu^2 (3 - 2 mu)` over the
/// denominator `d^3`, for `mu = n / d`.
pub open spec fn smooth_num(n: int, d: int) -> int {
    n * n * (3 * d - 2 * n)
}

/// Numerator of the centre-biased blend weight `newMu` over the denominator
/// `blend_den(d)`, for smoothing factor `sf` in thousandths.
pub open spec fn blend_num(n: int, d: int, sf: int) -> int {
    1000 * (d * d * d) + sf * (2 * smooth_num(n, d) - d * d * d)
}

/// Denominator of the blend weight.
pub open spec fn blend_den(d: int) -> int {
    2000 * (d * d * d)
}

/// One interpolated coordinate: `c0 + newMu * (c1 - c0)`, rounded.
pub open spec fn blend_coord(c0: int, c1: int, n: int, d: int, sf: int) -> int {
    round_div(c0 * blend_den(d) + blend_num(n, d, sf) * (c1 - c0), blend_den(d))
}

/// The crossing point for level `level` between value `v0` at `p0` and
/// value `v1` at `p1`, with smoothing factor `sf` in thousandths.
///
/// Equal values degenerate to the rounded midpoint.  Otherwise the ends are
/// ordered by value first, so the result depends only on the set of
/// (value, point) pairs: the two cells sharing a side agree exactly.
pub open spec fn spec_interpolate(level: int, v0: int, v1: int, p0: Point, p1: Point, sf: int) -> Point {
    if v0 == v1 {
        Point { x: round_div(p0.x + p1.x, 2) as i64, y: round_div(p0.y + p1.y, 2) as i64 }
    } else if v0 < v1 {
        Point {
            x: blend_coord(p0.x as int, p1.x as int, level - v0, v1 - v0, sf) as i64,
            y: blend_coord(p0.y as int, p1.y as int, level - v0, v1 - v0, sf) as i64,
        }
    } else {
        Point {
            x: blend_coord(p1.x as int, p0.x as int, level - v1, v0 - v1, sf) as i64,
            y: blend_coord(p1.y as int, p0.y as int, level - v1, v0 - v1, sf) as i64,
        }
    }
}

/// The level lies between the two corner values (the side straddles it).
pub open spec fn straddles(level: int, v0: int, v1: int) -> bool {
    if v0 <= v1 {
        v0 <= level <= v1
    } else {
        v1 <= level <= v0
    }
}

/// The smoothing numerator stays between `0` and `d^3` for `0 <= n <= d`:
/// the blend weight is a convex combination.
proof fn lemma_smooth_num_bounds(n: int, d: int)
    requires
        0 < d,
        0 <= n <= d,
    ensures
        0 <= smooth_num(n, d) <= d * d * d,
{
    assert(0 <= n * n * (3 * d - 2 * n)) by (nonlinear_arith)
        requires
            0 < d,
            0 <= n <= d,
    ;
    assert(d * d * d - n * n * (3 * d - 2 * n) == (d - n) * (d - n) * (d + 2 * n))
        by (nonlinear_arith);
    assert((d - n) * (d - n) * (d + 2 * n) >= 0) by (nonlinear_arith)
        requires
            0 < d,
            0 <= n <= d,
    ;
}

/// The blend numerator stays between `0` and the blend denominator.
proof fn lemma_blend_num_bounds(n: int, d: int, sf: int)
    requires
        0 < d,
        0 <= n <= d,
        0 <= sf <= 1000,
    ensures
        0 <= blend_num(n, d, sf) <= blend_den(d),
        0 < blend_den(d),
{
    lemma_smooth_num_bounds(n, d);
    let s = smooth_num(n, d);
    let d3 = d * d * d;
    assert(0 < d3) by (nonlinear_arith)
        requires
            0 < d,
            d3 == d * d * d,
    ;
    assert(0 <= 1000 * d3 + sf * (2 * s - d3) <= 2000 * d3) by (nonlinear_arith)
        requires
            0 < d3,
            0 <= s <= d3,
            0 <= sf <= 1000,
    ;
}

/// An interpolated coordinate lies between its two endpoint coordinates.
proof fn lemma_blend_coord_between(c0: int, c1: int, n: int, d: int, sf: int)
    requires
        0 < d,
        0 <= n <= d,
        0 <= sf <= 1000,
    ensures
        c0 <= c1 ==> c0 <= blend_coord(c0, c1, n, d, sf) <= c1,
        c1 <= c0 ==> c1 <= blend_coord(c0, c1, n, d, sf) <= c0,
{
    lemma_blend_num_bounds(n, d, sf);
    let nm = blend_num(n, d, sf);
    let den = blend_den(d);
    let big = c0 * den + nm * (c1 - c0);
    if c0 <= c1 {
        assert(c0 * den <= big <= c1 * den) by (nonlinear_arith)
            requires
                0 <= nm <= den,
                c0 <= c1,
                big == c0 * den + nm * (c1 - c0),
        ;
        lemma_round_div_bounds(big, den, c0, c1);
    } else {
        assert(c1 * den <= big <= c0 * den) by (nonlinear_arith)
            requires
                0 <= nm <= den,
                c1 <= c0,
                big == c0 * den + nm * (c1 - c0),
        ;
        lemma_round_div_bounds(big, den, c1, c0);
    }
}

/// The interpolated point lies in the axis-aligned box spanned by its two
/// endpoints; in particular it stays on the admissible lattice.
pub proof fn lemma_interpolate_between(level: int, v0: int, v1: int, p0: Point, p1: Point, sf: int)
    requires
        v0 != v1 ==> straddles(level, v0, v1),
        0 <= sf <= 1000,
    ensures
        ({
            let r = spec_interpolate(level, v0, v1, p0, p1, sf);
            &&& (p0.x <= p1.x ==> p0.x <= r.x <= p1.x) && (p1.x <= p0.x ==> p1.x <= r.x <= p0.x)
            &&& (p0.y <= p1.y ==> p0.y <= r.y <= p1.y) && (p1.y <= p0.y ==> p1.y <= r.y <= p0.y)
            &&& point_in_range(p0) && point_in_range(p1) ==> point_in_range(r)
        }),
{
    if v0 == v1 {
        lemma_midpoint_between(p0.x as int, p1.x as int);
        lemma_midpoint_between(p0.y as int, p1.y as int);
    } else if v0 < v1 {
        lemma_blend_coord_between(p0.x as int, p1.x as int, level - v0, v1 - v0, sf);
        lemma_blend_coord_between(p0.y as int, p1.y as int, level - v0, v1 - v0, sf);
    } else {
        lemma_blend_coord_between(p1.x as int, p0.x as int, level - v1, v0 - v1, sf);
        lemma_blend_coord_between(p1.y as int, p0.y as int, level - v1, v0 - v1, sf);
    }
}

/// The rounded midpoint lies between the two coordinates.
proof fn lemma_midpoint_between(c0: int, c1: int)
    ensures
        c0 <= c1 ==> c0 <= round_div(c0 + c1, 2) <= c1,
        c1 <= c0 ==> c1 <= round_div(c0 + c1, 2) <= c0,
{
    if c0 <= c1 {
        lemma_round_div_bounds(c0 + c1, 2, c0, c1);
    } else {
        lemma_round_div_bounds(c0 + c1, 2, c1, c0);
    }
}

/// Interpolation is symmetric in its two ends: handing the corners over in
/// the other order yields the same point.  Adjacent cells may therefore
/// name a shared side's crossing from either direction.
pub proof fn lemma_interpolate_swap(level: int, v0: int, v1: int, p0: Point, p1: Point, sf: int)
    ensures
        spec_interpolate(level, v0, v1, p0, p1, sf) == spec_interpolate(level, v1, v0, p1, p0, sf),
{
}

/// Distance bound of one blended coordinate from the matching end, scaled
/// by 2000: at `n == 0` the coordinate is within `(1000 - sf)/2000` of the
/// span from `c0`, up to one half rounding step.
proof fn lemma_end_coord(c0: int, c1: int, n: int, d: int, sf: int)
    requires
        0 < d,
        n == 0 || n == d,
        0 <= sf <= 1000,
    ensures
        n == 0 ==> 2000 * iabs(blend_coord(c0, c1, n, d, sf) - c0) <= (1000 - sf) * iabs(c1 - c0)
            + 1000,
        n == d ==> 2000 * iabs(blend_coord(c0, c1, n, d, sf) - c1) <= (1000 - sf) * iabs(c0 - c1)
            + 1000,
{
    let d3 = d * d * d;
    let nm = blend_num(n, d, sf);
    let den = blend_den(d);
    let big = c0 * den + nm * (c1 - c0);
    let q = blend_coord(c0, c1, n, d, sf);
    assert(0 < d3) by (nonlinear_arith)
        requires
            0 < d,
            d3 == d * d * d,
    ;
    lemma_blend_num_bounds(n, d, sf);
    lemma_round_div_err(big, den);
    let e = 2 * (q * den - big);
    if n == 0 {
        assert(smooth_num(n, d) == 0) by (nonlinear_arith)
            requires
                n == 0,
        ;
        assert(nm == (1000 - sf) * d3) by (nonlinear_arith)
            requires
                nm == 1000 * d3 + sf * (2 * 0 - d3),
        ;
        lemma_close_to_anchor(q, c0, c1 - c0, nm, den, d3, sf, e);
    } else {
        assert(smooth_num(n, d) == d3) by (nonlinear_arith)
            requires
                n == d,
                d3 == d * d * d,
                smooth_num(n, d) == n * n * (3 * d - 2 * n),
        ;
        assert(nm == (1000 + sf) * d3) by (nonlinear_arith)
            requires
                nm == 1000 * d3 + sf * (2 * d3 - d3),
        ;
        // Re-anchor the same exact value at the far end.
        assert(big == c1 * den + ((1000 - sf) * d3) * (c0 - c1)) by (nonlinear_arith)
            requires
                big == c0 * den + nm * (c1 - c0),
                nm == (1000 + sf) * d3,
                den == 2000 * d3,
        ;
        lemma_close_to_anchor(q, c1, c0 - c1, (1000 - sf) * d3, den, d3, sf, e);
    }
}

/// Core inequality: if `q * den` is within `den/2` of `a * den + w * t`
/// with `w == (1000 - sf) * d3` and `den == 2000 * d3`, then `q` is within
/// `((1000 - sf) * |t| + 1000) / 2000` of `a`.
proof fn lemma_close_to_anchor(q: int, a: int, t: int, w: int, den: int, d3: int, sf: int, e: int)
    requires
        0 < d3,
        den == 2000 * d3,
        0 <= sf <= 1000,
        w == (1000 - sf) * d3,
        e == 2 * (q * den - (a * den + w * t)),
        -den <= e <= den,
    ensures
        2000 * iabs(q - a) <= (1000 - sf) * iabs(t) + 1000,
{
    let k = 1000 - sf;
    assert(2 * (q - a) * den == e + 2 * w * t) by (nonlinear_arith)
        requires
            e == 2 * (q * den - (a * den + w * t)),
    ;
    if t >= 0 {
        assert(4000 * d3 * (q - a) <= 2000 * d3 + 2 * k * d3 * t) by (nonlinear_arith)
            requires
                2 * (q - a) * den == e + 2 * w * t,
                den == 2000 * d3,
                w == k * d3,
                e <= den,
                t >= 0,
        ;
        assert(4000 * d3 * (a - q) <= 2000 * d3) by (nonlinear_arith)
            requires
                2 * (q - a) * den == e + 2 * w * t,
                den == 2000 * d3,
                w == k * d3,
                -den <= e,
                0 <= k,
                0 < d3,
                t >= 0,
        ;
        assert(2000 * (q - a) <= k * t + 1000 && 2000 * (a - q) <= 1000) by (nonlinear_arith)
            requires
                0 < d3,
                4000 * d3 * (q - a) <= 2000 * d3 + 2 * k * d3 * t,
                4000 * d3 * (a - q) <= 2000 * d3,
        ;
        assert(0 <= k * t) by (nonlinear_arith)
            requires
                0 <= k,
                0 <= t,
        ;
    } else {
        assert(4000 * d3 * (a - q) <= 2000 * d3 + 2 * k * d3 * (-t)) by (nonlinear_arith)
            requires
                2 * (q - a) * den == e + 2 * w * t,
                den == 2000 * d3,
                w == k * d3,
                -den <= e,
                t < 0,
        ;
        assert(4000 * d3 * (q - a) <= 2000 * d3) by (nonlinear_arith)
            requires
                2 * (q - a) * den == e + 2 * w * t,
                den == 2000 * d3,
                w == k * d3,
                e <= den,
                0 <= k,
                0 < d3,
                t < 0,
        ;
        assert(2000 * (a - q) <= k * (-t) + 1000 && 2000 * (q - a) <= 1000) by (nonlinear_arith)
            requires
                0 < d3,
                4000 * d3 * (a - q) <= 2000 * d3 + 2 * k * d3 * (-t),
                4000 * d3 * (q - a) <= 2000 * d3,
        ;
        assert(0 <= k * (-t)) by (nonlinear_arith)
            requires
                0 <= k,
                t < 0,
        ;
    }
}

/// Reflecting the smoothing position: `s(mu)` and `s(1 - mu)` are
/// complementary, so the blend weights for `n` and `d - n` sum to one.
proof fn lemma_blend_num_flip(n: int, d: int, sf: int)
    requires
        0 < d,
    ensures
        blend_num(d - n, d, sf) == blend_den(d) - blend_num(n, d, sf),
{
    let d3 = d * d * d;
    assert(smooth_num(d - n, d) == d3 - smooth_num(n, d)) by (nonlinear_arith)
        requires
            d3 == d * d * d,
            smooth_num(d - n, d) == (d - n) * (d - n) * (3 * d - 2 * (d - n)),
            smooth_num(n, d) == n * n * (3 * d - 2 * n),
    ;
    assert(1000 * d3 + sf * (2 * (d3 - smooth_num(n, d)) - d3) == 2000 * d3 - (1000 * d3 + sf * (2
        * smooth_num(n, d) - d3))) by (nonlinear_arith);
}

/// One blended coordinate is unchanged by walking the segment from the
/// other end with the complementary weight.
proof fn lemma_blend_coord_flip(c0: int, c1: int, n: int, d: int, sf: int)
    requires
        0 < d,
    ensures
        blend_coord(c1, c0, d - n, d, sf) == blend_coord(c0, c1, n, d, sf),
{
    lemma_blend_num_flip(n, d, sf);
    let den = blend_den(d);
    let nm = blend_num(n, d, sf);
    assert(c1 * den + (den - nm) * (c0 - c1) == c0 * den + nm * (c1 - c0)) by (nonlinear_arith);
}

/// Reflecting the level and both values about any constant leaves the
/// crossing point unchanged: the catalog's complement-code symmetry holds
/// at the level of crossing positions, not just edge layouts.
pub proof fn lemma_interpolate_reflect(
    level: int,
    v0: int,
    v1: int,
    p0: Point,
    p1: Point,
    sf: int,
    c: int,
)
    ensures
        spec_interpolate(c - level, c - v0, c - v1, p0, p1, sf) == spec_interpolate(
            level,
            v0,
            v1,
            p0,
            p1,
            sf,
        ),
{
    if v0 < v1 {
        lemma_blend_coord_flip(p0.x as int, p1.x as int, level - v0, v1 - v0, sf);
        lemma_blend_coord_flip(p0.y as int, p1.y as int, level - v0, v1 - v0, sf);
    } else if v1 < v0 {
        lemma_blend_coord_flip(p1.x as int, p0.x as int, level - v1, v0 - v1, sf);
        lemma_blend_coord_flip(p1.y as int, p0.y as int, level - v1, v0 - v1, sf);
    }
}

/// Interpolating at an end value lands near that end: the distance is at
/// most `(1 - k)/2` of the span plus one lattice rounding step, `k` being
/// the smoothing factor in thousandths.  With the default `k = 999` the
/// crossing nearly coincides with the corner.
pub proof fn lemma_interpolate_at_ends(level: int, v0: int, v1: int, p0: Point, p1: Point, sf: int)
    requires
        v0 != v1,
        straddles(level, v0, v1),
        0 <= sf <= 1000,
    ensures
        level == v0 ==> 2000 * iabs(spec_interpolate(level, v0, v1, p0, p1, sf).x - p0.x)
            <= (1000 - sf) * iabs(p1.x - p0.x) + 1000,
        level == v0 ==> 2000 * iabs(spec_interpolate(level, v0, v1, p0, p1, sf).y - p0.y)
            <= (1000 - sf) * iabs(p1.y - p0.y) + 1000,
        level == v1 ==> 2000 * iabs(spec_interpolate(level, v0, v1, p0, p1, sf).x - p1.x)
            <= (1000 - sf) * iabs(p0.x - p1.x) + 1000,
        level == v1 ==> 2000 * iabs(spec_interpolate(level, v0, v1, p0, p1, sf).y - p1.y)
            <= (1000 - sf) * iabs(p0.y - p1.y) + 1000,
{
    if level == v0 || level == v1 {
        let (av, ap, bv, bp) = if v0 < v1 {
            (v0, p0, v1, p1)
        } else {
            (v1, p1, v0, p0)
        };
        let d = bv - av;
        let n = level - av;
        assert(n == 0 || n == d);
        lemma_blend_coord_between(ap.x as int, bp.x as int, n, d, sf);
        lemma_blend_coord_between(ap.y as int, bp.y as int, n, d, sf);
        lemma_end_coord(ap.x as int, bp.x as int, n, d, sf);
        lemma_end_coord(ap.y as int, bp.y as int, n, d, sf);
    }
}

/// Nearest-integer division, halves away from zero, on machine integers.
fn div_round_half(n: i128, d: i128) -> (r: i128)
    requires
        0 < d,
        -(i128::MAX / 4) < n < i128::MAX / 4,
        d < i128::MAX / 4,
    ensures
        r == round_div(n as int, d as int),
{
    if n >= 0 {
        (2 * n + d) / (2 * d)
    } else {
        -((2 * (-n) + d) / (2 * d))
    }
}

/// Interpolate a crossing point on the segment from `point0` (value
/// `value0`) to `point1` (value `value1`) at level `level`.
///
/// Equal corner values degenerate to the rounded midpoint; otherwise the
/// level must lie between the two values.  The result is the exact rational
/// blend rounded once onto the lattice, and lies in the box spanned by the
/// two endpoints.
pub fn interpolate_point(
    level: i64,
    value0: i64,
    value1: i64,
    point0: &Point,
    point1: &Point,
    smoothing: SmoothingFactor,
) -> (r: Point)
    requires
        value_in_range(level as int),
        value_in_range(value0 as int),
        value_in_range(value1 as int),
        point_in_range(*point0),
        point_in_range(*point1),
        smoothing_in_range(smoothing),
        value0 != value1 ==> straddles(level as int, value0 as int, value1 as int),
    ensures
        r == spec_interpolate(
            level as int,
            value0 as int,
            value1 as int,
            *point0,
            *point1,
            smoothing.0 as int,
        ),
        point_in_range(r),
{
    proof {
        lemma_interpolate_between(
            level as int,
            value0 as int,
            value1 as int,
            *point0,
            *point1,
            smoothing.0 as int,
        );
    }
    if value0 == value1 {
        let x = div_round_half((point0.x + point1.x) as i128, 2);
        let y = div_round_half((point0.y + point1.y) as i128, 2);
        proof {
            lemma_midpoint_between(point0.x as int, point1.x as int);
            lemma_midpoint_between(point0.y as int, point1.y as int);
        }
        Point { x: x as i64, y: y as i64 }
    } else {
        let (av, ap, bv, bp) = if value0 < value1 {
            (value0, point0, value1, point1)
        } else {
            (value1, point1, value0, point0)
        };
        let d: i128 = (bv as i128) - (av as i128);
        let n: i128 = (level as i128) - (av as i128);
        proof {
            assert(1 <= d as int <= 200_000_000);
            assert(0 <= n as int <= d as int);
            assert((d as int) * (d as int) <= 40_000_000_000_000_000int) by (nonlinear_arith)
                requires
                    1 <= d as int <= 200_000_000,
            ;
        }
        let dd: i128 = d * d;
        proof {
            assert((dd as int) * (d as int) <= 8_000_000_000_000_000_000_000_000int)
                by (nonlinear_arith)
                requires
                    1 <= d as int <= 200_000_000,
                    0 <= dd as int <= 40_000_000_000_000_000,
            ;
        }
        let d3: i128 = dd * d;
        proof {
            assert((n as int) * (n as int) <= 40_000_000_000_000_000int) by (nonlinear_arith)
                requires
                    0 <= n as int <= 200_000_000,
            ;
        }
        let nn: i128 = n * n;
        let t3: i128 = 3 * d - 2 * n;
        proof {
            assert((nn as int) * (t3 as int) <= 24_000_000_000_000_000_000_000_000int
                && 0 <= (nn as int) * (t3 as int)) by (nonlinear_arith)
                requires
                    0 <= nn as int <= 40_000_000_000_000_000,
                    0 <= t3 as int <= 600_000_000,
            ;
        }
        let s_num: i128 = nn * t3;
        let sf: i128 = smoothing.0 as i128;
        proof {
            lemma_smooth_num_bounds(n as int, d as int);
            lemma_blend_num_bounds(n as int, d as int, sf as int);
            assert(s_num as int == smooth_num(n as int, d as int));
            assert(d3 as int == (d as int) * (d as int) * (d as int));
            assert(iabs(sf as int * (2 * (s_num as int) - d3 as int))
                <= 1000 * (d3 as int)) by (nonlinear_arith)
                requires
                    0 <= sf as int <= 1000,
                    0 <= s_num as int <= d3 as int,
                    0 < d3 as int,
            ;
        }
        let nm: i128 = 1000 * d3 + sf * (2 * s_num - d3);
        let den: i128 = 2000 * d3;
        proof {
            assert(nm as int == blend_num(n as int, d as int, sf as int));
            assert(den as int == blend_den(d as int));
            assert(0 <= nm as int <= den as int);
        }
        let x = blend_exec(ap.x, bp.x, nm, den, Ghost(n as int), Ghost(d as int), Ghost(sf as int));
        let y = blend_exec(ap.y, bp.y, nm, den, Ghost(n as int), Ghost(d as int), Ghost(sf as int));
        Point { x, y }
    }
}

/// One interpolated machine coordinate, with the blend weight already
/// computed as `nm / den`.
fn blend_exec(c0: i64, c1: i64, nm: i128, den: i128, n: Ghost<int>, d: Ghost<int>, sf: Ghost<int>) -> (r: i64)
    requires
        -18_000_000 <= c0 <= 18_000_000,
        -18_000_000 <= c1 <= 18_000_000,
        0 < d@,
        0 <= n@ <= d@,
        0 <= sf@ <= 1000,
        nm as int == blend_num(n@, d@, sf@),
        den as int == blend_den(d@),
        0 <= nm as int <= den as int,
        0 < den as int <= 16_000_000_000_000_000_000_000_000_000,
    ensures
        r as int == blend_coord(c0 as int, c1 as int, n@, d@, sf@),
{
    proof {
        assert(iabs((c0 as int) * (den as int)) <= 288_000_000_000_000_000_000_000_000_000_000_000int)
            by (nonlinear_arith)
            requires
                -18_000_000 <= c0 as int <= 18_000_000,
                0 < den as int <= 16_000_000_000_000_000_000_000_000_000,
        ;
        assert(iabs((nm as int) * ((c1 as int) - (c0 as int)))
            <= 576_000_000_000_000_000_000_000_000_000_000_000int) by (nonlinear_arith)
            requires
                -18_000_000 <= c0 as int <= 18_000_000,
                -18_000_000 <= c1 as int <= 18_000_000,
                0 <= nm as int <= den as int,
                den as int <= 16_000_000_000_000_000_000_000_000_000,
        ;
    }
    let big: i128 = (c0 as i128) * den + nm * ((c1 as i128) - (c0 as i128));
    let q = div_round_half(big, den);
    proof {
        lemma_blend_coord_between(c0 as int, c1 as int, n@, d@, sf@);
    }
    q as i64
}

/// Interpolate the crossing on one side of a cell, given the four corner
/// positions and values in top-left, top-right, bottom-right, bottom-left
/// order.
pub fn interpolate_side(
    level: i64,
    side: Side,
    top_left: (&Point, i64),
    top_right: (&Point, i64),
    bottom_right: (&Point, i64),
    bottom_left: (&Point, i64),
    smoothing: SmoothingFactor,
) -> (r: Point)
    requires
        value_in_range(level as int),
        value_in_range(top_left.1 as int),
        value_in_range(top_right.1 as int),
        value_in_range(bottom_right.1 as int),
        value_in_range(bottom_left.1 as int),
        point_in_range(*top_left.0),
        point_in_range(*top_right.0),
        point_in_range(*bottom_right.0),
        point_in_range(*bottom_left.0),
        smoothing_in_range(smoothing),
        match side {
            Side::Top => top_left.1 != top_right.1 ==> straddles(
                level as int,
                top_left.1 as int,
                top_right.1 as int,
            ),
            Side::Right => top_right.1 != bottom_right.1 ==> straddles(
                level as int,
                top_right.1 as int,
                bottom_right.1 as int,
            ),
            Side::Bottom => bottom_left.1 != bottom_right.1 ==> straddles(
                level as int,
                bottom_left.1 as int,
                bottom_right.1 as int,
            ),
            Side::Left => top_left.1 != bottom_left.1 ==> straddles(
                level as int,
                top_left.1 as int,
                bottom_left.1 as int,
            ),
        },
    ensures
        r == match side {
            Side::Top => spec_interpolate(
                level as int,
                top_left.1 as int,
                top_right.1 as int,
                *top_left.0,
                *top_right.0,
                smoothing.0 as int,
            ),
            Side::Right => spec_interpolate(
                level as int,
                top_right.1 as int,
                bottom_right.1 as int,
                *top_right.0,
                *bottom_right.0,
                smoothing.0 as int,
            ),
            Side::Bottom => spec_interpolate(
                level as int,
                bottom_left.1 as int,
                bottom_right.1 as int,
                *bottom_left.0,
                *bottom_right.0,
                smoothing.0 as int,
            ),
            Side::Left => spec_interpolate(
                level as int,
                top_left.1 as int,
                bottom_left.1 as int,
                *top_left.0,
                *bottom_left.0,
                smoothing.0 as int,
            ),
        },
        point_in_range(r),
{
    match side {
        Side::Top => interpolate_point(
            level,
            top_left.1,
            top_right.1,
            top_left.0,
            top_right.0,
            smoothing,
        ),
        Side::Right => interpolate_point(
            level,
            top_right.1,
            bottom_right.1,
            top_right.0,
            bottom_right.0,
            smoothing,
        ),
        Side::Bottom => interpolate_point(
            level,
            bottom_left.1,
            bottom_right.1,
            bottom_left.0,
            bottom_right.0,
            smoothing,
        ),
        Side::Left => interpolate_point(
            level,
            top_left.1,
            bottom_left.1,
            top_left.0,
            bottom_left.0,
            smoothing,
        ),
    }
}

} // verus!
