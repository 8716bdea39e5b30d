//! Mouse paths: a cubic Bezier curve from the cursor to the target, with
//! randomly placed interior control points, sampled at a fixed step count.

use vstd::prelude::*;
use vstd::arithmetic::div_mod::{lemma_fundamental_div_mod, lemma_fundamental_div_mod_converse_div};
use crate::chance::{random_range, random_ratio};

verus! {

/// A position on the page, in whole CSS pixels.
#[derive(Debug, Clone, Copy, PartialEq, Eq, Structural)]
pub struct Point {
    pub x: i32,
    pub y: i32,
}

/// The most steps a path may be sampled at.
pub const MAX_STEPS: usize = 16777216;

/// `v` held to the range of `i32`.
pub open spec fn clamp_i32(v: int) -> i32 {
    if v < i32::MIN { i32::MIN } else if v > i32::MAX { i32::MAX } else { v as i32 }
}

/// Whether `r` is the square root of `v` rounded down.
pub open spec fn is_floor_sqrt(v: nat, r: nat) -> bool {
    r * r <= v && v < (r + 1) * (r + 1)
}

/// The largest natural number whose square is at most `v`.
pub open spec fn floor_sqrt(v: nat) -> nat {
    choose|r: nat| is_floor_sqrt(v, r)
}

/// The straight-line distance between two points, rounded down.
pub open spec fn distance(a: Point, b: Point) -> nat {
    let dx = b.x - a.x;
    let dy = b.y - a.y;
    floor_sqrt((dx * dx + dy * dy) as nat)
}

/// How far a control point may stray from the straight line: 30% of the
/// distance.
pub open spec fn spread(a: Point, b: Point) -> int {
    (distance(a, b) * 3 / 10) as int
}

/// How far an overshooting second control point is pushed on: 5% of the
/// distance.
pub open spec fn overshoot_amount(a: Point, b: Point) -> int {
    (distance(a, b) / 20) as int
}

/// The first control point: a quarter of the way along, moved by the
/// offsets.
pub open spec fn first_control(a: Point, b: Point, ox: int, oy: int) -> (int, int) {
    (a.x + (b.x - a.x) / 4 + ox, a.y + (b.y - a.y) / 4 + oy)
}

/// The second control point: three quarters of the way along, moved by the
/// offsets, and pushed on past the target when `overshoot` holds.
pub open spec fn second_control(a: Point, b: Point, ox: int, oy: int, overshoot: bool) -> (int, int) {
    let x = a.x + 3 * (b.x - a.x) / 4 + ox;
    let y = a.y + 3 * (b.y - a.y) / 4 + oy;
    let amt = overshoot_amount(a, b);
    if overshoot {
        (if b.x > a.x { x + amt } else { x - amt }, if b.y > a.y { y + amt } else { y - amt })
    } else {
        (x, y)
    }
}

/// One coordinate of the cubic Bezier curve through `p0`..`p3` at
/// `t = i / n`, rounded down.
pub open spec fn bezier_coord(p0: int, p1: int, p2: int, p3: int, i: int, n: int) -> int {
    let u = n - i;
    (u * u * u * p0 + 3 * (u * u * i) * p1 + 3 * (u * i * i) * p2 + i * i * i * p3) / (n * n * n)
}

/// The point of the curve at step `i` of `n`, held to the range of `i32`.
pub open spec fn curve_point(a: Point, c1: (int, int), c2: (int, int), b: Point, i: int, n: int) -> Point {
    Point {
        x: clamp_i32(bezier_coord(a.x as int, c1.0, c2.0, b.x as int, i, n)),
        y: clamp_i32(bezier_coord(a.y as int, c1.1, c2.1, b.y as int, i, n)),
    }
}

/// Whether `path` samples the curve through `a`, `c1`, `c2`, `b` at steps
/// `0..=n`.
pub open spec fn samples_curve(path: Seq<Point>, a: Point, c1: (int, int), c2: (int, int), b: Point, n: int) -> bool {
    &&& path.len() == n + 1
    &&& forall|i: int| 0 <= i <= n ==> #[trigger] path[i] == curve_point(a, c1, c2, b, i, n)
}

/// Whether `path` is a path from `a` to `b` at `n` steps, for some choice of
/// the random offsets (each within the spread) and of the overshoot.
pub open spec fn is_path(path: Seq<Point>, a: Point, b: Point, n: int) -> bool {
    exists|o: (int, int, int, int), overshoot: bool|
        #![trigger samples_curve(path, a, first_control(a, b, o.0, o.1), second_control(a, b, o.2, o.3, overshoot), b, n)]
        {
        &&& -spread(a, b) <= o.0 <= spread(a, b)
        &&& -spread(a, b) <= o.1 <= spread(a, b)
        &&& -spread(a, b) <= o.2 <= spread(a, b)
        &&& -spread(a, b) <= o.3 <= spread(a, b)
        &&& samples_curve(path, a, first_control(a, b, o.0, o.1), second_control(a, b, o.2, o.3, overshoot), b, n)
    }
}

proof fn lemma_mul_bound(a: int, b: int, ba: int, bb: int)
    requires
        0 <= a <= ba,
        -bb <= b <= bb,
    ensures
        -(ba * bb) <= a * b <= ba * bb,
{
    assert(-(ba * bb) <= a * b <= ba * bb) by (nonlinear_arith)
        requires 0 <= a <= ba, -bb <= b <= bb;
}

/// `n / d` rounded down, for a positive `d`.
fn floor_div(n: i128, d: i128) -> (q: i128)
    requires
        d > 0,
        -0x100_0000_0000_0000_0000_0000_0000_0000 <= n <= 0x100_0000_0000_0000_0000_0000_0000_0000,
        d <= 0x100_0000_0000_0000_0000_0000_0000_0000,
    ensures
        q == n / d,
{
    if n >= 0 {
        let q = (n as u128 / d as u128) as i128;
        q
    } else {
        let m = (-n) as u128 + (d as u128 - 1);
        let k = m / d as u128;
        proof {
            let mi = m as int;
            let di = d as int;
            let ki = k as int;
            lemma_fundamental_div_mod(mi, di);
            assert(ki == mi / di);
            let r = n + ki * di;
            assert(n == (-ki) * di + r) by (nonlinear_arith)
                requires r == n + ki * di;
            assert(0 <= r < di) by (nonlinear_arith)
                requires
                    mi == -n + di - 1,
                    mi == di * ki + mi % di,
                    0 <= mi % di < di,
                    r == n + ki * di,
                    di > 0;
            lemma_fundamental_div_mod_converse_div(n as int, d as int, -(k as int), r);
        }
        -(k as i128)
    }
}

/// The largest number whose square is at most `v`.
fn isqrt(v: u128) -> (r: u64)
    requires
        v < 0x4_0000_0000_0000_0000,
    ensures
        r == floor_sqrt(v as nat),
        r < 0x2_0000_0000,
{
    let mut lo: u64 = 0;
    let mut hi: u64 = 0x2_0000_0000;
    assert(hi * hi > v) by (nonlinear_arith)
        requires hi == 0x2_0000_0000, v < 0x4_0000_0000_0000_0000;
    while hi - lo > 1
        invariant
            lo < hi <= 0x2_0000_0000,
            lo * lo <= v,
            v < hi * hi,
        decreases hi - lo,
    {
        let mid = lo + (hi - lo) / 2;
        assert(mid * mid <= 0x4_0000_0000_0000_0000) by (nonlinear_arith)
            requires mid <= 0x2_0000_0000;
        if (mid as u128) * (mid as u128) <= v {
            lo = mid;
        } else {
            hi = mid;
        }
    }
    proof {
        let r = floor_sqrt(v as nat);
        assert(is_floor_sqrt(v as nat, lo as nat));
        assert(r * r <= v && v < (r + 1) * (r + 1));
        assert(r == lo) by (nonlinear_arith)
            requires
                r * r <= v,
                v < (r + 1) * (r + 1),
                lo * lo <= v,
                v < (lo + 1) * (lo + 1),
                r >= 0,
                lo >= 0;
    }
    lo
}

/// The bound on control-point coordinates that keeps the curve arithmetic
/// within `i128`.
pub const CONTROL_BOUND: i64 = 0x4_0000_0000;

/// `v` held to the range of `i32`.
fn clamp_to_i32(v: i128) -> (r: i32)
    ensures
        r == clamp_i32(v as int),
{
    if v < i32::MIN as i128 {
        i32::MIN
    } else if v > i32::MAX as i128 {
        i32::MAX
    } else {
        v as i32
    }
}

/// One coordinate of the curve at step `i` of `n`.
fn curve_coord(p0: i64, p1: i64, p2: i64, p3: i64, i: usize, n: usize) -> (r: i32)
    requires
        1 <= n <= MAX_STEPS,
        i <= n,
        -CONTROL_BOUND <= p0 <= CONTROL_BOUND,
        -CONTROL_BOUND <= p1 <= CONTROL_BOUND,
        -CONTROL_BOUND <= p2 <= CONTROL_BOUND,
        -CONTROL_BOUND <= p3 <= CONTROL_BOUND,
    ensures
        r == clamp_i32(bezier_coord(p0 as int, p1 as int, p2 as int, p3 as int, i as int, n as int)),
{
    let u = (n - i) as i128;
    let t = i as i128;
    let nn = n as i128;
    let b: i128 = 0x4_0000_0000;
    proof {
        lemma_mul_bound(u as int, u as int, 0x100_0000, 0x100_0000);
        lemma_mul_bound(u as int, t as int, 0x100_0000, 0x100_0000);
        lemma_mul_bound(t as int, t as int, 0x100_0000, 0x100_0000);
        lemma_mul_bound(nn as int, nn as int, 0x100_0000, 0x100_0000);
        assert(u * u >= 0 && u * t >= 0 && t * t >= 0 && nn * nn >= 1) by (nonlinear_arith)
            requires u >= 0, t >= 0, nn >= 1;
    }
    let uu = u * u;
    let ut = u * t;
    let tt = t * t;
    let n2 = nn * nn;
    proof {
        lemma_mul_bound(uu as int, u as int, 0x1_0000_0000_0000, 0x100_0000);
        lemma_mul_bound(uu as int, t as int, 0x1_0000_0000_0000, 0x100_0000);
        lemma_mul_bound(ut as int, t as int, 0x1_0000_0000_0000, 0x100_0000);
        lemma_mul_bound(tt as int, t as int, 0x1_0000_0000_0000, 0x100_0000);
        lemma_mul_bound(n2 as int, nn as int, 0x1_0000_0000_0000, 0x100_0000);
        assert(uu * u >= 0 && uu * t >= 0 && ut * t >= 0 && tt * t >= 0 && n2 * nn >= 1) by (nonlinear_arith)
            requires uu >= 0, ut >= 0, tt >= 0, u >= 0, t >= 0, n2 >= 1, nn >= 1;
    }
    let uuu = uu * u;
    let uui = uu * t;
    let uii = ut * t;
    let iii = tt * t;
    let den = n2 * nn;
    proof {
        lemma_mul_bound(uuu as int, p0 as int, 0x1_0000_0000_0000_0000_00, b as int);
        lemma_mul_bound(3 * uui as int, p1 as int, 0x3_0000_0000_0000_0000_00, b as int);
        lemma_mul_bound(3 * uii as int, p2 as int, 0x3_0000_0000_0000_0000_00, b as int);
        lemma_mul_bound(iii as int, p3 as int, 0x1_0000_0000_0000_0000_00, b as int);
    }
    let num = uuu * (p0 as i128) + 3 * uui * (p1 as i128) + 3 * uii * (p2 as i128) + iii * (p3 as i128);
    clamp_to_i32(floor_div(num, den))
}

/// The distance between two points, rounded down.
fn distance_of(a: Point, b: Point) -> (r: i64)
    ensures
        r == distance(a, b),
        0 <= r < 0x2_0000_0000,
{
    let dx = b.x as i128 - a.x as i128;
    let dy = b.y as i128 - a.y as i128;
    assert(dx * dx <= 0x1_0000_0000_0000_0000) by (nonlinear_arith)
        requires -0x1_0000_0000 <= dx <= 0x1_0000_0000;
    assert(dy * dy <= 0x1_0000_0000_0000_0000) by (nonlinear_arith)
        requires -0x1_0000_0000 <= dy <= 0x1_0000_0000;
    assert(dx * dx >= 0 && dy * dy >= 0) by (nonlinear_arith);
    let d2 = (dx * dx + dy * dy) as u128;
    isqrt(d2) as i64
}

/// The curve passes through its first and last control points: step `0`
/// is `p0` and step `n` is `p3`.
pub proof fn lemma_curve_ends(p0: int, p1: int, p2: int, p3: int, n: int)
    requires
        n >= 1,
    ensures
        bezier_coord(p0, p1, p2, p3, 0, n) == p0,
        bezier_coord(p0, p1, p2, p3, n, n) == p3,
{
    let d = n * n * n;
    assert(d > 0) by (nonlinear_arith)
        requires n >= 1, d == n * n * n;
    let u0 = n - 0;
    assert(u0 * u0 * u0 * p0 + 3 * (u0 * u0 * 0) * p1 + 3 * (u0 * 0 * 0) * p2 + 0 * 0 * 0 * p3
        == p0 * d + 0) by (nonlinear_arith)
        requires u0 == n, d == n * n * n;
    lemma_fundamental_div_mod_converse_div(p0 * d, d, p0, 0);
    let un = n - n;
    assert(un * un * un * p0 + 3 * (un * un * n) * p1 + 3 * (un * n * n) * p2 + n * n * n * p3
        == p3 * d + 0) by (nonlinear_arith)
        requires un == 0, d == n * n * n;
    lemma_fundamental_div_mod_converse_div(p3 * d, d, p3, 0);
}

/// Mouse-path generation.
#[derive(Debug)]
pub struct BezierPath;

impl BezierPath {
    /// Samples the cubic Bezier curve through `start`, `c1`, `c2` and `end`
    /// at `steps + 1` evenly spaced parameters, first and last included.
    pub fn curve(start: Point, c1: (i64, i64), c2: (i64, i64), end: Point, steps: usize) -> (r: Vec<Point>)
        requires
            1 <= steps <= MAX_STEPS,
            -CONTROL_BOUND <= c1.0 <= CONTROL_BOUND,
            -CONTROL_BOUND <= c1.1 <= CONTROL_BOUND,
            -CONTROL_BOUND <= c2.0 <= CONTROL_BOUND,
            -CONTROL_BOUND <= c2.1 <= CONTROL_BOUND,
        ensures
            samples_curve(r@, start, (c1.0 as int, c1.1 as int), (c2.0 as int, c2.1 as int), end, steps as int),
    {
        let mut path: Vec<Point> = Vec::new();
        let mut i: usize = 0;
        while i <= steps
            invariant
                1 <= steps <= MAX_STEPS,
                i <= steps + 1,
                path@.len() == i,
                -CONTROL_BOUND <= c1.0 <= CONTROL_BOUND,
                -CONTROL_BOUND <= c1.1 <= CONTROL_BOUND,
                -CONTROL_BOUND <= c2.0 <= CONTROL_BOUND,
                -CONTROL_BOUND <= c2.1 <= CONTROL_BOUND,
                forall|j: int| 0 <= j < i ==> #[trigger] path@[j] == curve_point(
                    start, (c1.0 as int, c1.1 as int), (c2.0 as int, c2.1 as int), end, j, steps as int),
            decreases steps + 1 - i,
        {
            let x = curve_coord(start.x as i64, c1.0, c2.0, end.x as i64, i, steps);
            let y = curve_coord(start.y as i64, c1.1, c2.1, end.y as i64, i, steps);
            path.push(Point { x, y });
            i = i + 1;
        }
        path
    }

    /// The two interior control points for a path from `start` to `end`:
    /// a quarter and three quarters of the way along, moved by the given
    /// offsets, the second pushed on past the target by 5% of the distance
    /// when `overshoot` holds.
    pub fn control_points(start: Point, end: Point, offsets: (i64, i64, i64, i64), overshoot: bool) -> (r: ((i64, i64), (i64, i64)))
        requires
            -spread(start, end) <= offsets.0 <= spread(start, end),
            -spread(start, end) <= offsets.1 <= spread(start, end),
            -spread(start, end) <= offsets.2 <= spread(start, end),
            -spread(start, end) <= offsets.3 <= spread(start, end),
        ensures
            (r.0.0 as int, r.0.1 as int) == first_control(start, end, offsets.0 as int, offsets.1 as int),
            (r.1.0 as int, r.1.1 as int) == second_control(start, end, offsets.2 as int, offsets.3 as int, overshoot),
            -CONTROL_BOUND <= r.0.0 <= CONTROL_BOUND,
            -CONTROL_BOUND <= r.0.1 <= CONTROL_BOUND,
            -CONTROL_BOUND <= r.1.0 <= CONTROL_BOUND,
            -CONTROL_BOUND <= r.1.1 <= CONTROL_BOUND,
    {
        let dx = end.x as i128 - start.x as i128;
        let dy = end.y as i128 - start.y as i128;
        let dist = distance_of(start, end);
        let amt = (dist / 20) as i128;
        let x1 = start.x as i128 + floor_div(dx, 4) + offsets.0 as i128;
        let y1 = start.y as i128 + floor_div(dy, 4) + offsets.1 as i128;
        let mut x2 = start.x as i128 + floor_div(3 * dx, 4) + offsets.2 as i128;
        let mut y2 = start.y as i128 + floor_div(3 * dy, 4) + offsets.3 as i128;
        if overshoot {
            x2 = if end.x > start.x { x2 + amt } else { x2 - amt };
            y2 = if end.y > start.y { y2 + amt } else { y2 - amt };
        }
        ((x1 as i64, y1 as i64), (x2 as i64, y2 as i64))
    }

    /// A human-looking path from `start` to `end`: the curve through two
    /// randomly placed control points, sampled at `steps + 1` points. The
    /// path begins exactly at `start` and ends exactly at `end`.
    pub fn generate(start: Point, end: Point, steps: usize) -> (r: Vec<Point>)
        requires
            1 <= steps <= MAX_STEPS,
        ensures
            is_path(r@, start, end, steps as int),
            r@.len() == steps + 1,
            r@[0] == start,
            r@[steps as int] == end,
    {
        let spread_now = (distance_of(start, end) * 3 / 10) as i128;
        let ox1 = random_range(-spread_now, spread_now + 1) as i64;
        let oy1 = random_range(-spread_now, spread_now + 1) as i64;
        let ox2 = random_range(-spread_now, spread_now + 1) as i64;
        let oy2 = random_range(-spread_now, spread_now + 1) as i64;
        let overshoot = random_ratio(1, 5);
        let (c1, c2) = BezierPath::control_points(start, end, (ox1, oy1, ox2, oy2), overshoot);
        let path = BezierPath::curve(start, c1, c2, end, steps);
        proof {
            let o = (ox1 as int, oy1 as int, ox2 as int, oy2 as int);
            let fc = first_control(start, end, o.0, o.1);
            let sc = second_control(start, end, o.2, o.3, overshoot);
            assert(samples_curve(path@, start, fc, sc, end, steps as int));
            lemma_curve_ends(start.x as int, fc.0, sc.0, end.x as int, steps as int);
            lemma_curve_ends(start.y as int, fc.1, sc.1, end.y as int, steps as int);
            assert(path@[0] == curve_point(start, fc, sc, end, 0, steps as int));
            assert(path@[steps as int] == curve_point(start, fc, sc, end, steps as int, steps as int));
        }
        path
    }
}

} // verus!
