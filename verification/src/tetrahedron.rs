//! The tetrahedron corner generator and the flat mesh emitter.
//!
//! Both functions read their input point and scale at some denominator
//! exponent `e` of the caller's choice and write their output at `e + 1`.
//! Working one exponent deeper is what lets the half-scale offsets of the
//! corner construction stay integral: where the geometry says
//! `x - scale/2`, the output numerator is `2*x_num - scale_num`.
//!
//! A corner set is the standard regular-tetrahedron construction: three
//! corners in an equilateral triangle around the center in the plane of
//! constant `z`, one corner pointing along `+x`, and the apex straight
//! above the center at height `scale * sqrt(2)`.

use crate::point::cmag;
use crate::point::cscale;
use crate::point::padd;
use crate::point::pmag;
use crate::point::pscale;
use crate::point::view_points;
use crate::point::Coord;
use crate::point::CoordM;
use crate::point::Point3;
use crate::point::PointM;
use crate::point::MAG_LIMIT;
use vstd::math::abs;
use vstd::prelude::*;

verus! {

/// Four corner points of one tetrahedron, in the fixed order
/// `p0, p1, p2, p3` produced by [`tetrahedron_corners`].
#[derive(Clone, Copy, Debug, PartialEq, Eq, Structural)]
pub struct Tetrahedron {
    pub p0: Point3,
    pub p1: Point3,
    pub p2: Point3,
    pub p3: Point3,
}

/// Offset of corner `i` from the doubled center, at one denominator
/// exponent below the center's: corner `i` of the tetrahedron at
/// `(b, s)` has numerators `2*b + corner_offset(s, i)`.
///
/// In geometric terms (at the output exponent, where `s` stands for half
/// the input scale): corner 0 lies `scale` along `+x`; corners 1 and 2 lie
/// `scale/2` back along `-x` and `scale * sqrt(3)/2` to either side in `y`;
/// corner 3 lies `scale * sqrt(2)` above in `z`.
pub open spec fn corner_offset(s: int, i: int) -> PointM {
    if i == 0 {
        PointM {
            x: CoordM { u: 2 * s, r2: 0, r3: 0 },
            y: CoordM { u: 0, r2: 0, r3: 0 },
            z: CoordM { u: 0, r2: 0, r3: 0 },
        }
    } else if i == 1 {
        PointM {
            x: CoordM { u: -s, r2: 0, r3: 0 },
            y: CoordM { u: 0, r2: 0, r3: s },
            z: CoordM { u: 0, r2: 0, r3: 0 },
        }
    } else if i == 2 {
        PointM {
            x: CoordM { u: -s, r2: 0, r3: 0 },
            y: CoordM { u: 0, r2: 0, r3: -s },
            z: CoordM { u: 0, r2: 0, r3: 0 },
        }
    } else {
        PointM {
            x: CoordM { u: 0, r2: 0, r3: 0 },
            y: CoordM { u: 0, r2: 0, r3: 0 },
            z: CoordM { u: 0, r2: 2 * s, r3: 0 },
        }
    }
}

/// Corner `i` of the tetrahedron centered at `b` with scale `s`, one
/// denominator exponent below `b` and `s`.
pub open spec fn corner_model(b: PointM, s: int, i: int) -> PointM {
    padd(pscale(2, b), corner_offset(s, i))
}

/// The 12 surface points of the tetrahedron at `(b, s)`: four faces in the
/// fixed winding order `(p0,p2,p1), (p0,p1,p3), (p0,p3,p2), (p1,p2,p3)`,
/// three corner points each, at one denominator exponent below `b` and `s`.
pub open spec fn tetra_mesh_model(b: PointM, s: int) -> Seq<PointM> {
    seq![
        corner_model(b, s, 0),
        corner_model(b, s, 2),
        corner_model(b, s, 1),
        corner_model(b, s, 0),
        corner_model(b, s, 1),
        corner_model(b, s, 3),
        corner_model(b, s, 0),
        corner_model(b, s, 3),
        corner_model(b, s, 2),
        corner_model(b, s, 1),
        corner_model(b, s, 2),
        corner_model(b, s, 3),
    ]
}

/// A corner offset is linear in the scale.
pub proof fn lemma_corner_offset_linear(s: int, i: int)
    ensures
        corner_offset(s, i) == pscale(s, corner_offset(1, i)),
{
    if i == 0 {
        assert(s * (2 * 1) == 2 * s) by (nonlinear_arith);
        assert(corner_offset(s, 0) =~= pscale(s, corner_offset(1, 0)));
    } else if i == 1 {
        assert(corner_offset(s, 1) =~= pscale(s, corner_offset(1, 1)));
    } else if i == 2 {
        assert(corner_offset(s, 2) =~= pscale(s, corner_offset(1, 2)));
    } else {
        assert(s * (2 * 1) == 2 * s) by (nonlinear_arith);
        assert(corner_offset(s, i) =~= pscale(s, corner_offset(1, i)));
    }
}

/// Corner numerators stay within twice the combined magnitude of the
/// center and the scale.
pub proof fn lemma_corner_mag(b: PointM, s: int, i: int)
    ensures
        pmag(corner_model(b, s, i)) <= 2 * pmag(b) + 2 * abs(s),
{
}

/// Doubled numerators of one coordinate.
fn coord_double(c: &Coord) -> (d: Coord)
    requires
        cmag(c@) * 2 <= MAG_LIMIT as int,
    ensures
        d@ == cscale(2, c@),
{
    Coord { u: 2 * c.u, r2: 2 * c.r2, r3: 2 * c.r3 }
}

/// The four corners of the regular tetrahedron centered at `center` with
/// the given scale.
///
/// Inputs are read at a denominator exponent `e` of the caller's choice;
/// the corners come back at `e + 1`.
pub fn tetrahedron_corners(center: &Point3, scale: i64) -> (t: Tetrahedron)
    requires
        (pmag(center@) + abs(scale as int)) * 2 <= MAG_LIMIT as int,
    ensures
        t.p0@ == corner_model(center@, scale as int, 0),
        t.p1@ == corner_model(center@, scale as int, 1),
        t.p2@ == corner_model(center@, scale as int, 2),
        t.p3@ == corner_model(center@, scale as int, 3),
{
    let s2: i64 = 2 * scale;
    let bx = coord_double(&center.x);
    let by = coord_double(&center.y);
    let bz = coord_double(&center.z);
    let p0 = Point3 { x: Coord { u: bx.u + s2, r2: bx.r2, r3: bx.r3 }, y: by, z: bz };
    let p1 = Point3 {
        x: Coord { u: bx.u - scale, r2: bx.r2, r3: bx.r3 },
        y: Coord { u: by.u, r2: by.r2, r3: by.r3 + scale },
        z: bz,
    };
    let p2 = Point3 {
        x: Coord { u: bx.u - scale, r2: bx.r2, r3: bx.r3 },
        y: Coord { u: by.u, r2: by.r2, r3: by.r3 - scale },
        z: bz,
    };
    let p3 = Point3 { x: bx, y: by, z: Coord { u: bz.u, r2: bz.r2 + s2, r3: bz.r3 } };
    Tetrahedron { p0, p1, p2, p3 }
}

/// The 12 surface points of one tetrahedron, four faces of three points
/// each, in the winding order fixed by [`tetra_mesh_model`].
///
/// Inputs are read at a denominator exponent `e` of the caller's choice;
/// the points come back at `e + 1`.
pub fn tetrahedron(center: &Point3, scale: i64) -> (points: Vec<Point3>)
    requires
        (pmag(center@) + abs(scale as int)) * 2 <= MAG_LIMIT as int,
    ensures
        view_points(points@) == tetra_mesh_model(center@, scale as int),
{
    let t = tetrahedron_corners(center, scale);
    let mut points: Vec<Point3> = Vec::new();
    points.push(t.p0);
    points.push(t.p2);
    points.push(t.p1);
    points.push(t.p0);
    points.push(t.p1);
    points.push(t.p3);
    points.push(t.p0);
    points.push(t.p3);
    points.push(t.p2);
    points.push(t.p1);
    points.push(t.p2);
    points.push(t.p3);
    proof {
        assert(view_points(points@) =~= tetra_mesh_model(center@, scale as int));
    }
    points
}

} // verus!
