//! Two-dimensional fixed-point vectors and the geometric queries the
//! collision probes are built from.

use vstd::prelude::*;
use crate::fx::FX_ONE;
use crate::fx::FMUL_LIMIT;
use crate::fx::iabs;
use crate::fx::iabs64;
use crate::fx::tdiv;
use crate::fx::tdiv_spec;
use crate::fx::fmul;
use crate::fx::fmul_spec;
use crate::fx::isqrt;
use crate::fx::isqrt_spec;
use crate::fx::lemma_isqrt_unique;
use crate::fx::lemma_isqrt_monotone;
use crate::fx::lemma_tdiv_le;

verus! {

/// A point or displacement in the plane, both axes in fixed-point ticks.
#[derive(Clone, Copy, PartialEq, Eq, Structural, Debug)]
pub struct Vec2 {
    pub x: i64,
    pub y: i64,
}

/// Both components of `v` have magnitude at most `b`.
pub open spec fn in_box(v: Vec2, b: int) -> bool {
    iabs(v.x as int) <= b && iabs(v.y as int) <= b
}

/// Squared Euclidean length.
pub open spec fn len2_spec(v: Vec2) -> int {
    v.x * v.x + v.y * v.y
}

/// Euclidean length of the vector `(x, y)`, rounded down.
pub open spec fn len_i(x: int, y: int) -> int {
    isqrt_spec((x * x + y * y) as nat) as int
}

/// Euclidean length, rounded down.
pub open spec fn length_spec(v: Vec2) -> int {
    len_i(v.x as int, v.y as int)
}

/// Squared distance between two points.
pub open spec fn dist2_spec(a: Vec2, b: Vec2) -> int {
    (b.x - a.x) * (b.x - a.x) + (b.y - a.y) * (b.y - a.y)
}

/// Distance between two points, rounded down.
pub open spec fn dist_spec(a: Vec2, b: Vec2) -> int {
    isqrt_spec(dist2_spec(a, b) as nat) as int
}

/// X component of the unit vector along `(x, y)`, scaled by `FX_ONE`; zero
/// when the vector is zero.
pub open spec fn norm_xi(x: int, y: int) -> int {
    if len_i(x, y) == 0 {
        0
    } else {
        tdiv_spec(x * FX_ONE, len_i(x, y))
    }
}

/// Y component of the unit vector along `(x, y)`, scaled by `FX_ONE`.
pub open spec fn norm_yi(x: int, y: int) -> int {
    if len_i(x, y) == 0 {
        0
    } else {
        tdiv_spec(y * FX_ONE, len_i(x, y))
    }
}

/// The unit vector along `v`, components scaled by `FX_ONE`; the zero vector
/// when `v` itself is zero.
pub open spec fn norm_x_spec(v: Vec2) -> int {
    norm_xi(v.x as int, v.y as int)
}

pub open spec fn norm_y_spec(v: Vec2) -> int {
    norm_yi(v.x as int, v.y as int)
}

/// Cross product of `p2 - p1` and `(px, py) - p1`: twice the signed area of
/// the triangle `p1 p2 (px, py)`.
pub open spec fn cross_i(p1: Vec2, p2: Vec2, px: int, py: int) -> int {
    (p2.x - p1.x) * (py - p1.y) - (p2.y - p1.y) * (px - p1.x)
}

/// Cross product of `p2 - p1` and `p3 - p1`.
pub open spec fn cross_spec(p1: Vec2, p2: Vec2, p3: Vec2) -> int {
    cross_i(p1, p2, p3.x as int, p3.y as int)
}

/// Distance from `(px, py)` to the line through `p1` and `p2`, rounded down;
/// zero when the line is degenerate.
pub open spec fn pld_i(p1: Vec2, p2: Vec2, px: int, py: int) -> int {
    let len = dist_spec(p1, p2);
    if len == 0 {
        0
    } else {
        tdiv_spec(iabs(cross_i(p1, p2, px, py)), len)
    }
}

/// Distance from `p3` to the line through `p1` and `p2`, rounded down.
pub open spec fn pld_spec(p1: Vec2, p2: Vec2, p3: Vec2) -> int {
    pld_i(p1, p2, p3.x as int, p3.y as int)
}

/// The distance between two points never exceeds the sum of the coordinate
/// gaps.
pub proof fn lemma_dist_l1(a: Vec2, b: Vec2)
    ensures
        0 <= dist_spec(a, b) <= iabs(b.x - a.x) + iabs(b.y - a.y),
{
    lemma_length_bounds(b.x - a.x, b.y - a.y);
}

/// Lagrange's identity bounds a cross product by the factors' lengths.
pub proof fn lemma_cross_sq_bound(ax: int, ay: int, bx: int, by: int)
    ensures
        (ax * by - ay * bx) * (ax * by - ay * bx) <= (ax * ax + ay * ay) * (bx * bx + by * by),
{
    let p = ax * by;
    let q = ay * bx;
    let r = ax * bx;
    let s = ay * by;
    assert(p * p == (ax * ax) * (by * by)) by (nonlinear_arith)
        requires
            p == ax * by,
    ;
    assert(q * q == (ay * ay) * (bx * bx)) by (nonlinear_arith)
        requires
            q == ay * bx,
    ;
    assert(r * r == (ax * ax) * (bx * bx)) by (nonlinear_arith)
        requires
            r == ax * bx,
    ;
    assert(s * s == (ay * ay) * (by * by)) by (nonlinear_arith)
        requires
            s == ay * by,
    ;
    assert(p * q == r * s) by (nonlinear_arith)
        requires
            p == ax * by,
            q == ay * bx,
            r == ax * bx,
            s == ay * by,
    ;
    assert((p - q) * (p - q) == p * p - 2 * (p * q) + q * q) by (nonlinear_arith);
    assert((r + s) * (r + s) == r * r + 2 * (r * s) + s * s) by (nonlinear_arith);
    assert((r + s) * (r + s) >= 0) by (nonlinear_arith);
    assert((ax * ax + ay * ay) * (bx * bx + by * by) == (ax * ax) * (bx * bx) + (ax * ax) * (by
        * by) + (ay * ay) * (bx * bx) + (ay * ay) * (by * by)) by (nonlinear_arith);
}

/// A component never exceeds the length, and the length never exceeds the
/// sum of the components' magnitudes.
pub proof fn lemma_length_bounds(x: int, y: int)
    ensures
        iabs(x) <= isqrt_spec((x * x + y * y) as nat),
        iabs(y) <= isqrt_spec((x * x + y * y) as nat),
        isqrt_spec((x * x + y * y) as nat) <= iabs(x) + iabs(y),
{
    let s2 = (x * x + y * y) as nat;
    assert(x * x >= 0 && y * y >= 0 && iabs(x) * iabs(x) == x * x && iabs(y) * iabs(y) == y * y
        && x * x < (iabs(x) + 1) * (iabs(x) + 1) && y * y < (iabs(y) + 1) * (iabs(y) + 1))
        by (nonlinear_arith);
    lemma_isqrt_unique((x * x) as nat, iabs(x) as nat);
    lemma_isqrt_monotone((x * x) as nat, s2);
    lemma_isqrt_unique((y * y) as nat, iabs(y) as nat);
    lemma_isqrt_monotone((y * y) as nat, s2);
    let m = iabs(x) + iabs(y);
    assert(x * x + y * y <= m * m && m * m < (m + 1) * (m + 1)) by (nonlinear_arith)
        requires
            m == iabs(x) + iabs(y),
            iabs(x) * iabs(x) == x * x,
            iabs(y) * iabs(y) == y * y,
            iabs(x) >= 0,
            iabs(y) >= 0,
    ;
    lemma_isqrt_unique((m * m) as nat, m as nat);
    lemma_isqrt_monotone(s2, (m * m) as nat);
}

/// The distance from a point to a line is within a rounding step of the
/// distance to any point on that line.
pub proof fn lemma_pld_bound(p1: Vec2, p2: Vec2, p3: Vec2)
    ensures
        0 <= pld_spec(p1, p2, p3),
        pld_spec(p1, p2, p3) <= 2 * (dist_spec(p1, p3) + 1),
{
    let la = dist_spec(p1, p2);
    let lb = dist_spec(p1, p3);
    let ax = p2.x - p1.x;
    let ay = p2.y - p1.y;
    let bx = p3.x - p1.x;
    let by = p3.y - p1.y;
    let cr = iabs(cross_spec(p1, p2, p3));
    crate::fx::lemma_isqrt_props(dist2_spec(p1, p2) as nat);
    crate::fx::lemma_isqrt_props(dist2_spec(p1, p3) as nat);
    if la == 0 {
        assert(pld_spec(p1, p2, p3) == 0);
    } else {
        lemma_cross_sq_bound(ax, ay, bx, by);
        assert(ax * ax + ay * ay >= 0 && bx * bx + by * by >= 0) by (nonlinear_arith);
        assert(cr * cr <= (ax * ax + ay * ay) * (bx * bx + by * by)) by (nonlinear_arith)
            requires
                cr == iabs(ax * by - ay * bx),
                (ax * by - ay * bx) * (ax * by - ay * bx)
                    <= (ax * ax + ay * ay) * (bx * bx + by * by),
        ;
        assert(cr <= (la + 1) * (lb + 1)) by (nonlinear_arith)
            requires
                cr >= 0,
                la >= 0,
                lb >= 0,
                cr * cr <= (ax * ax + ay * ay) * (bx * bx + by * by),
                ax * ax + ay * ay < (la + 1) * (la + 1),
                bx * bx + by * by < (lb + 1) * (lb + 1),
                ax * ax + ay * ay >= 0,
                bx * bx + by * by >= 0,
        ;
        lemma_tdiv_le(cr, (la + 1) * (lb + 1), la);
        assert(((la + 1) * (lb + 1)) / la <= 2 * (lb + 1)) by (nonlinear_arith)
            requires
                la >= 1,
                lb >= 0,
        ;
    }
}

/// Make a vector from its components.
pub fn vec2(x: i64, y: i64) -> (v: Vec2)
    ensures
        v.x == x,
        v.y == y,
{
    Vec2 { x, y }
}

impl Vec2 {
    /// Componentwise sum.
    pub fn plus(self, o: Vec2) -> (r: Vec2)
        requires
            i64::MIN <= self.x + o.x <= i64::MAX,
            i64::MIN <= self.y + o.y <= i64::MAX,
        ensures
            r.x == self.x + o.x,
            r.y == self.y + o.y,
    {
        Vec2 { x: self.x + o.x, y: self.y + o.y }
    }

    /// Componentwise difference.
    pub fn minus(self, o: Vec2) -> (r: Vec2)
        requires
            i64::MIN <= self.x - o.x <= i64::MAX,
            i64::MIN <= self.y - o.y <= i64::MAX,
        ensures
            r.x == self.x - o.x,
            r.y == self.y - o.y,
    {
        Vec2 { x: self.x - o.x, y: self.y - o.y }
    }

    /// Both components multiplied by a fixed-point factor.
    pub fn scaled(self, k: i64) -> (r: Vec2)
        requires
            in_box(self, FMUL_LIMIT as int),
            -FMUL_LIMIT <= k <= FMUL_LIMIT,
        ensures
            r.x == fmul_spec(self.x as int, k as int),
            r.y == fmul_spec(self.y as int, k as int),
            iabs(r.x as int) <= iabs(self.x as int) * iabs(k as int) / (FX_ONE as int),
            iabs(r.y as int) <= iabs(self.y as int) * iabs(k as int) / (FX_ONE as int),
    {
        Vec2 { x: fmul(self.x, k), y: fmul(self.y, k) }
    }

    /// Euclidean length, rounded down.
    pub fn length(self) -> (r: i64)
        requires
            in_box(self, 3_000_000_000),
        ensures
            r == length_spec(self),
            iabs(self.x as int) <= r,
            iabs(self.y as int) <= r,
            r <= iabs(self.x as int) + iabs(self.y as int),
    {
        let xa: u64 = iabs64(self.x) as u64;
        let ya: u64 = iabs64(self.y) as u64;
        proof {
            assert(xa * xa <= 3_000_000_000u64 * 3_000_000_000u64 && ya * ya
                <= 3_000_000_000u64 * 3_000_000_000u64) by (nonlinear_arith)
                requires
                    0 <= xa <= 3_000_000_000u64,
                    0 <= ya <= 3_000_000_000u64,
            ;
            assert(xa as int * xa as int == self.x as int * self.x as int && ya as int * ya as int
                == self.y as int * self.y as int) by (nonlinear_arith)
                requires
                    xa == iabs(self.x as int),
                    ya == iabs(self.y as int),
            ;
            lemma_length_bounds(self.x as int, self.y as int);
        }
        let s2: u64 = xa * xa + ya * ya;
        let r: u64 = isqrt(s2);
        r as i64
    }

    /// Distance to another point, rounded down.
    pub fn dist_to(self, o: Vec2) -> (r: i64)
        requires
            in_box(self, 1_000_000_000),
            in_box(o, 2_000_000_000),
        ensures
            r == dist_spec(self, o),
            r <= iabs(o.x - self.x) + iabs(o.y - self.y),
            0 <= r,
    {
        let d: Vec2 = o.minus(self);
        let r: i64 = d.length();
        proof {
            assert(dist2_spec(self, o) == len2_spec(d));
        }
        r
    }

    /// The unit vector along `self`, scaled by `FX_ONE`; the zero vector when
    /// `self` is zero.
    pub fn normalized(self) -> (r: Vec2)
        requires
            in_box(self, 3_000_000_000),
        ensures
            r.x == norm_x_spec(self),
            r.y == norm_y_spec(self),
            in_box(r, FX_ONE as int),
    {
        let len: i64 = self.length();
        if len == 0 {
            Vec2 { x: 0, y: 0 }
        } else {
            proof {
                lemma_tdiv_le(self.x as int * FX_ONE as int, len as int * FX_ONE as int, len as int);
                lemma_tdiv_le(self.y as int * FX_ONE as int, len as int * FX_ONE as int, len as int);
                assert(iabs(self.x as int * FX_ONE as int) <= len as int * FX_ONE as int && iabs(
                    self.y as int * FX_ONE as int) <= len as int * FX_ONE as int)
                    by (nonlinear_arith)
                    requires
                        iabs(self.x as int) <= len as int,
                        iabs(self.y as int) <= len as int,
                        FX_ONE as int > 0,
                ;
                assert((len as int * FX_ONE as int) / (len as int) == FX_ONE as int)
                    by (nonlinear_arith)
                    requires
                        len as int >= 1,
                        FX_ONE as int > 0,
                ;
            }
            let nx: i64 = tdiv(self.x * FX_ONE, len);
            let ny: i64 = tdiv(self.y * FX_ONE, len);
            Vec2 { x: nx, y: ny }
        }
    }
}

/// Distance from `p3` to the line through `p1` and `p2`, rounded down.
pub fn point_line_distance(p1: Vec2, p2: Vec2, p3: Vec2) -> (r: i64)
    requires
        in_box(p1, 200_000_000),
        in_box(p2, 200_000_000),
        in_box(p3, 2_000_000_000),
    ensures
        r == pld_spec(p1, p2, p3),
        0 <= r <= 2 * (dist_spec(p1, p3) + 1),
{
    proof {
        lemma_pld_bound(p1, p2, p3);
    }
    let len: i64 = p1.dist_to(p2);
    if len == 0 {
        0
    } else {
        let ax: i64 = p2.x - p1.x;
        let ay: i64 = p2.y - p1.y;
        let bx: i64 = p3.x - p1.x;
        let by: i64 = p3.y - p1.y;
        proof {
            assert(iabs(ax as int * by as int) <= 400_000_000int * 2_200_000_000int && iabs(
                ay as int * bx as int) <= 400_000_000int * 2_200_000_000int) by (nonlinear_arith)
                requires
                    iabs(ax as int) <= 400_000_000int,
                    iabs(ay as int) <= 400_000_000int,
                    iabs(bx as int) <= 2_200_000_000int,
                    iabs(by as int) <= 2_200_000_000int,
            ;
        }
        let cr: i64 = ax * by - ay * bx;
        let ca: i64 = iabs64(cr);
        tdiv(ca, len)
    }
}

} // verus!
