//! The map's collision surface: triangle polygons with a material
//! classification, their cached edge normals, and the sector grid that
//! bounds candidate-polygon lookups near a point.

use vstd::prelude::*;
use crate::vec2::Vec2;
use crate::vec2::in_box;
use crate::vec2::cross_i;
use crate::vec2::norm_xi;
use crate::vec2::norm_yi;
use crate::vec2::pld_i;
use crate::vec2::dist_spec;
use crate::vec2::point_line_distance;
use crate::vec2::lemma_dist_l1;
use crate::vec2::vec2;
use crate::fx::FX_ONE;
use crate::fx::iabs;
use crate::fx::round_div;
use crate::fx::round_div_spec;

verus! {

/// A map polygon's material and behavior classification.
#[derive(Clone, Copy, PartialEq, Eq, Structural, Debug)]
pub enum PolyType {
    Normal,
    OnlyBulletsCollide,
    NoCollide,
    Deadly,
    BloodyDeadly,
    Explosive,
    Bouncy,
    Ice,
}

/// A triangle polygon: three vertices, the cached unit normal of each edge,
/// a material, and a restitution factor for bouncy material.
///
/// Each cached normal points to the interior side of its edge (the side of
/// the triangle's third vertex), so that subtracting it moves a penetrating
/// point back toward the boundary.
#[derive(Clone, Copy, PartialEq, Eq, Structural, Debug)]
pub struct Polygon {
    pub v1: Vec2,
    pub v2: Vec2,
    pub v3: Vec2,
    /// Unit normal of edge `v1 v2`, scaled by `FX_ONE`.
    pub perp1: Vec2,
    /// Unit normal of edge `v2 v3`, scaled by `FX_ONE`.
    pub perp2: Vec2,
    /// Unit normal of edge `v3 v1`, scaled by `FX_ONE`.
    pub perp3: Vec2,
    pub polytype: PolyType,
    /// Restitution in `[0, 1]`, fixed-point.
    pub bounciness: i64,
}

/// X component of the unit normal of edge `a b` on the side of `c`, scaled
/// by `FX_ONE`.
pub open spec fn edge_perp_x(a: Vec2, b: Vec2, c: Vec2) -> int {
    let nx = b.y - a.y;
    let ny = a.x - b.x;
    if nx * (c.x - a.x) + ny * (c.y - a.y) >= 0 {
        norm_xi(nx, ny)
    } else {
        norm_xi(-nx, -ny)
    }
}

/// Y component of the unit normal of edge `a b` on the side of `c`, scaled
/// by `FX_ONE`.
pub open spec fn edge_perp_y(a: Vec2, b: Vec2, c: Vec2) -> int {
    let nx = b.y - a.y;
    let ny = a.x - b.x;
    if nx * (c.x - a.x) + ny * (c.y - a.y) >= 0 {
        norm_yi(nx, ny)
    } else {
        norm_yi(-nx, -ny)
    }
}

/// Vertices within the world box, each cached normal the interior-side unit
/// normal of its edge, restitution in `[0, 1]`.
pub open spec fn poly_wf(p: Polygon) -> bool {
    &&& in_box(p.v1, 100_000_000)
    &&& in_box(p.v2, 100_000_000)
    &&& in_box(p.v3, 100_000_000)
    &&& in_box(p.perp1, FX_ONE as int)
    &&& in_box(p.perp2, FX_ONE as int)
    &&& in_box(p.perp3, FX_ONE as int)
    &&& p.perp1.x == edge_perp_x(p.v1, p.v2, p.v3) && p.perp1.y == edge_perp_y(p.v1, p.v2, p.v3)
    &&& p.perp2.x == edge_perp_x(p.v2, p.v3, p.v1) && p.perp2.y == edge_perp_y(p.v2, p.v3, p.v1)
    &&& p.perp3.x == edge_perp_x(p.v3, p.v1, p.v2) && p.perp3.y == edge_perp_y(p.v3, p.v1, p.v2)
    &&& 0 <= p.bounciness <= FX_ONE
}

/// The interior-side unit normal of edge `a b`, `c` marking the interior.
fn edge_perp(a: Vec2, b: Vec2, c: Vec2) -> (r: Vec2)
    requires
        in_box(a, 100_000_000),
        in_box(b, 100_000_000),
        in_box(c, 100_000_000),
    ensures
        r.x == edge_perp_x(a, b, c),
        r.y == edge_perp_y(a, b, c),
        in_box(r, FX_ONE as int),
{
    let nx: i64 = b.y - a.y;
    let ny: i64 = a.x - b.x;
    proof {
        crate::fx::lemma_fmul_bound(nx as int, (c.x - a.x) as int, 200_000_000, 200_000_000);
        crate::fx::lemma_fmul_bound(ny as int, (c.y - a.y) as int, 200_000_000, 200_000_000);
    }
    let side: i64 = nx * (c.x - a.x) + ny * (c.y - a.y);
    if side >= 0 {
        vec2(nx, ny).normalized()
    } else {
        vec2(-nx, -ny).normalized()
    }
}

impl Polygon {
    /// A triangle over the given vertices with its edge normals computed.
    pub fn new(v1: Vec2, v2: Vec2, v3: Vec2, polytype: PolyType, bounciness: i64) -> (r: Polygon)
        requires
            in_box(v1, 100_000_000),
            in_box(v2, 100_000_000),
            in_box(v3, 100_000_000),
            0 <= bounciness <= FX_ONE,
        ensures
            poly_wf(r),
            r.v1 == v1,
            r.v2 == v2,
            r.v3 == v3,
            r.polytype == polytype,
            r.bounciness == bounciness,
    {
        Polygon {
            v1,
            v2,
            v3,
            perp1: edge_perp(v1, v2, v3),
            perp2: edge_perp(v2, v3, v1),
            perp3: edge_perp(v3, v1, v2),
            polytype,
            bounciness,
        }
    }
}

/// Whether the soldier collides with this material at all.
pub open spec fn collidable(t: PolyType) -> bool {
    t != PolyType::NoCollide && t != PolyType::OnlyBulletsCollide
}

/// Whether touching this material teleports the soldier to the spawn point.
pub open spec fn lethal(t: PolyType) -> bool {
    t == PolyType::Deadly || t == PolyType::BloodyDeadly || t == PolyType::Explosive
}

/// Strict point-in-triangle test: `(px, py)` lies on one side of all three
/// edges.
pub open spec fn pip_strict(p: Polygon, px: int, py: int) -> bool {
    let c1 = cross_i(p.v1, p.v2, px, py);
    let c2 = cross_i(p.v2, p.v3, px, py);
    let c3 = cross_i(p.v3, p.v1, px, py);
    (c1 > 0 && c2 > 0 && c3 > 0) || (c1 < 0 && c2 < 0 && c3 < 0)
}

/// Edge-inclusive point-in-triangle test.
pub open spec fn pip_edges(p: Polygon, px: int, py: int) -> bool {
    let c1 = cross_i(p.v1, p.v2, px, py);
    let c2 = cross_i(p.v2, p.v3, px, py);
    let c3 = cross_i(p.v3, p.v1, px, py);
    (c1 >= 0 && c2 >= 0 && c3 >= 0) || (c1 <= 0 && c2 <= 0 && c3 <= 0)
}

/// Distance from `(px, py)` to the line carrying edge `k` of `p` (edges are
/// numbered 1 to 3 starting at `v1 v2`).
pub open spec fn edge_dist(p: Polygon, k: int, px: int, py: int) -> int {
    if k == 1 {
        pld_i(p.v1, p.v2, px, py)
    } else if k == 2 {
        pld_i(p.v2, p.v3, px, py)
    } else {
        pld_i(p.v3, p.v1, px, py)
    }
}

/// The edge of `p` nearest to `(px, py)`, lowest number winning ties.
pub open spec fn cp_sel(p: Polygon, px: int, py: int) -> int {
    let d1 = edge_dist(p, 1, px, py);
    let d2 = edge_dist(p, 2, px, py);
    let d3 = edge_dist(p, 3, px, py);
    if d1 <= d2 && d1 <= d3 {
        1
    } else if d2 <= d3 {
        2
    } else {
        3
    }
}

/// Distance from `(px, py)` to the nearest edge line of `p`.
pub open spec fn cp_dist(p: Polygon, px: int, py: int) -> int {
    edge_dist(p, cp_sel(p, px, py), px, py)
}

/// The cached normal of edge `k` of `p`.
pub open spec fn perp_of(p: Polygon, k: int) -> Vec2 {
    if k == 1 {
        p.perp1
    } else if k == 2 {
        p.perp2
    } else {
        p.perp3
    }
}

/// The map: polygons, the sector grid over them, spawn points and the
/// map-defined jet fuel cap.
pub struct MapIndex {
    pub polygons: Vec<Polygon>,
    /// World units per sector cell.
    pub sectors_division: i64,
    /// Number of sector cells along each axis.
    pub sectors_num: i64,
    /// `sectors_poly[rx][ry]` lists the 1-based ids of the polygons
    /// registered in that cell.
    pub sectors_poly: Vec<Vec<Vec<usize>>>,
    pub spawnpoints: Vec<Vec2>,
    /// Jet fuel cap for this map.
    pub start_jet: i32,
}

impl MapIndex {
    pub open spec fn wf(self) -> bool {
        &&& 1 <= self.sectors_division <= 1_000_000
        &&& 0 <= self.sectors_num <= 100_000
        &&& self.sectors_poly@.len() >= self.sectors_num + 25
        &&& forall|r: int|
            0 <= r < self.sectors_poly@.len() ==> (#[trigger] self.sectors_poly@[r])@.len()
                >= self.sectors_num + 25
        &&& forall|r: int, c: int, j: int|
            0 <= r < self.sectors_poly@.len() && 0 <= c < self.sectors_poly@[r]@.len() && 0 <= j
                < self.sectors_poly@[r]@[c]@.len() ==> 1 <= #[trigger] self.sectors_poly@[r]@[c]@[j]
                <= self.polygons@.len()
        &&& forall|i: int| 0 <= i < self.polygons@.len() ==> poly_wf(#[trigger] self.polygons@[i])
        &&& self.spawnpoints@.len() >= 1
        &&& forall|i: int|
            0 <= i < self.spawnpoints@.len() ==> in_box(#[trigger] self.spawnpoints@[i], 100_000_000)
    }

    /// The sector cell coordinate holding fixed-point world coordinate `c`.
    pub open spec fn sector_coord_spec(self, c: int) -> int {
        round_div_spec(c, self.sectors_division * FX_ONE) + 25
    }

    /// Map a fixed-point world coordinate to its sector cell coordinate.
    pub fn sector_coord(&self, c: i64) -> (r: i64)
        requires
            self.wf(),
            -4_000_000_000_000 <= c <= 4_000_000_000_000,
        ensures
            r == self.sector_coord_spec(c as int),
            -5_000_000_000_000 <= r <= 5_000_000_000_000,
    {
        let d: i64 = self.sectors_division * FX_ONE;
        round_div(c, d) + 25
    }

    /// Strict interior test of `p` against polygon `poly`.
    pub fn point_in_poly(&self, p: Vec2, poly: &Polygon) -> (r: bool)
        requires
            poly_wf(*poly),
            in_box(p, 2_000_000_000),
        ensures
            r == pip_strict(*poly, p.x as int, p.y as int),
    {
        let c1: i64 = cross_at(poly.v1, poly.v2, p);
        let c2: i64 = cross_at(poly.v2, poly.v3, p);
        let c3: i64 = cross_at(poly.v3, poly.v1, p);
        (c1 > 0 && c2 > 0 && c3 > 0) || (c1 < 0 && c2 < 0 && c3 < 0)
    }

    /// Edge-inclusive interior test of `(x, y)` against polygon index `poly`.
    pub fn point_in_poly_edges(&self, x: i64, y: i64, poly: usize) -> (r: bool)
        requires
            self.wf(),
            poly < self.polygons@.len(),
            -2_000_000_000 <= x <= 2_000_000_000,
            -2_000_000_000 <= y <= 2_000_000_000,
        ensures
            r == pip_edges(self.polygons@[poly as int], x as int, y as int),
    {
        let pg: &Polygon = &self.polygons[poly];
        let p: Vec2 = Vec2 { x, y };
        let c1: i64 = cross_at(pg.v1, pg.v2, p);
        let c2: i64 = cross_at(pg.v2, pg.v3, p);
        let c3: i64 = cross_at(pg.v3, pg.v1, p);
        (c1 >= 0 && c2 >= 0 && c3 >= 0) || (c1 <= 0 && c2 <= 0 && c3 <= 0)
    }

    /// The nearest-perpendicular query: the cached normal of the nearest
    /// edge of polygon `poly`, the distance to that edge's line, and the
    /// edge's number (1 to 3).
    pub fn closest_perpendicular(&self, poly: usize, pos: Vec2) -> (r: (Vec2, i64, i32))
        requires
            self.wf(),
            poly < self.polygons@.len(),
            in_box(pos, 2_000_000_000),
        ensures
            r.0 == perp_of(self.polygons@[poly as int], r.2 as int),
            r.1 == cp_dist(self.polygons@[poly as int], pos.x as int, pos.y as int),
            r.2 == cp_sel(self.polygons@[poly as int], pos.x as int, pos.y as int),
            in_box(r.0, FX_ONE as int),
            0 <= r.1 <= 2 * (iabs(pos.x as int) + iabs(pos.y as int)) + 400_000_002,
    {
        let pg: &Polygon = &self.polygons[poly];
        proof {
            lemma_dist_l1(pg.v1, pos);
            lemma_dist_l1(pg.v2, pos);
            lemma_dist_l1(pg.v3, pos);
        }
        let d1: i64 = point_line_distance(pg.v1, pg.v2, pos);
        let d2: i64 = point_line_distance(pg.v2, pg.v3, pos);
        let d3: i64 = point_line_distance(pg.v3, pg.v1, pos);
        if d1 <= d2 && d1 <= d3 {
            (pg.perp1, d1, 1)
        } else if d2 <= d3 {
            (pg.perp2, d2, 2)
        } else {
            (pg.perp3, d3, 3)
        }
    }
}

/// Signed side of `p` relative to the directed edge `a b`.
fn cross_at(a: Vec2, b: Vec2, p: Vec2) -> (r: i64)
    requires
        in_box(a, 100_000_000),
        in_box(b, 100_000_000),
        in_box(p, 2_000_000_000),
    ensures
        r == cross_i(a, b, p.x as int, p.y as int),
{
    proof {
        assert(iabs((b.x - a.x) as int * (p.y - a.y) as int) <= 200_000_000int * 2_100_000_000int
            && iabs((b.y - a.y) as int * (p.x - a.x) as int) <= 200_000_000int
            * 2_100_000_000int) by (nonlinear_arith)
            requires
                iabs((b.x - a.x) as int) <= 200_000_000int,
                iabs((b.y - a.y) as int) <= 200_000_000int,
                iabs((p.x - a.x) as int) <= 2_100_000_000int,
                iabs((p.y - a.y) as int) <= 2_100_000_000int,
        ;
    }
    (b.x - a.x) * (p.y - a.y) - (b.y - a.y) * (p.x - a.x)
}

} // verus!
