//! Coordinates and points.
//!
//! A [`Coord`] holds the integer numerators `(u, r2, r3)` of one coordinate
//! whose value is `(u + r2*sqrt(2) + r3*sqrt(3)) / 2^e`; the denominator
//! exponent `e` is fixed by the function that produced the value and is
//! documented there.  A [`Point3`] is one coordinate per axis.
//!
//! The specification-level mirrors [`CoordM`] and [`PointM`] carry the same
//! numerators as unbounded integers, so the mathematical model of the
//! geometry never has to mention machine limits.

use vstd::math::abs;
use vstd::math::max;
use vstd::prelude::*;

verus! {

/// Numerators of one coordinate: the value `(u + r2*sqrt(2) + r3*sqrt(3)) / 2^e`
/// for the denominator exponent `e` given by context.
#[derive(Clone, Copy, Debug, PartialEq, Eq, Structural)]
pub struct Coord {
    pub u: i64,
    pub r2: i64,
    pub r3: i64,
}

/// A point with one [`Coord`] per axis, all three at the same denominator
/// exponent.
#[derive(Clone, Copy, Debug, PartialEq, Eq, Structural)]
pub struct Point3 {
    pub x: Coord,
    pub y: Coord,
    pub z: Coord,
}

/// Mathematical mirror of [`Coord`]: the same numerators as unbounded integers.
pub ghost struct CoordM {
    pub u: int,
    pub r2: int,
    pub r3: int,
}

/// Mathematical mirror of [`Point3`].
pub ghost struct PointM {
    pub x: CoordM,
    pub y: CoordM,
    pub z: CoordM,
}

impl View for Coord {
    type V = CoordM;

    open spec fn view(&self) -> CoordM {
        CoordM { u: self.u as int, r2: self.r2 as int, r3: self.r3 as int }
    }
}

impl View for Point3 {
    type V = PointM;

    open spec fn view(&self) -> PointM {
        PointM { x: self.x@, y: self.y@, z: self.z@ }
    }
}

impl Coord {
    /// The coordinate with the plain integer value `u` (no radical parts).
    pub fn integer(u: i64) -> (c: Coord)
        ensures
            c@ == (CoordM { u: u as int, r2: 0, r3: 0 }),
    {
        Coord { u, r2: 0, r3: 0 }
    }
}

impl Point3 {
    /// The point `(x, y, z)` with plain integer coordinates.
    pub fn new(x: i64, y: i64, z: i64) -> (p: Point3)
        ensures
            p@.x == (CoordM { u: x as int, r2: 0, r3: 0 }),
            p@.y == (CoordM { u: y as int, r2: 0, r3: 0 }),
            p@.z == (CoordM { u: z as int, r2: 0, r3: 0 }),
    {
        Point3 { x: Coord::integer(x), y: Coord::integer(y), z: Coord::integer(z) }
    }
}

/// Componentwise sum of two coordinates (at a common denominator exponent).
pub open spec fn cadd(a: CoordM, b: CoordM) -> CoordM {
    CoordM { u: a.u + b.u, r2: a.r2 + b.r2, r3: a.r3 + b.r3 }
}

/// Componentwise difference of two coordinates.
pub open spec fn csub(a: CoordM, b: CoordM) -> CoordM {
    CoordM { u: a.u - b.u, r2: a.r2 - b.r2, r3: a.r3 - b.r3 }
}

/// A coordinate scaled by the integer `k`.
pub open spec fn cscale(k: int, a: CoordM) -> CoordM {
    CoordM { u: k * a.u, r2: k * a.r2, r3: k * a.r3 }
}

/// Componentwise sum of two points.
pub open spec fn padd(a: PointM, b: PointM) -> PointM {
    PointM { x: cadd(a.x, b.x), y: cadd(a.y, b.y), z: cadd(a.z, b.z) }
}

/// Componentwise difference of two points.
pub open spec fn psub(a: PointM, b: PointM) -> PointM {
    PointM { x: csub(a.x, b.x), y: csub(a.y, b.y), z: csub(a.z, b.z) }
}

/// A point scaled by the integer `k`.
pub open spec fn pscale(k: int, a: PointM) -> PointM {
    PointM { x: cscale(k, a.x), y: cscale(k, a.y), z: cscale(k, a.z) }
}

/// The origin: every numerator zero.
pub open spec fn origin() -> PointM {
    PointM {
        x: CoordM { u: 0, r2: 0, r3: 0 },
        y: CoordM { u: 0, r2: 0, r3: 0 },
        z: CoordM { u: 0, r2: 0, r3: 0 },
    }
}

/// Headroom bound for numerators: every verified function keeps all the
/// numerators it produces at or below this magnitude, which leaves a factor
/// of two to `i64::MAX` for the additions inside each step.
pub const MAG_LIMIT: i64 = 0x4000_0000_0000_0000;

/// Largest absolute value among the three numerators of a coordinate.
pub open spec fn cmag(c: CoordM) -> int {
    max(abs(c.u) as int, max(abs(c.r2) as int, abs(c.r3) as int))
}

/// Largest absolute value among the nine numerators of a point.
pub open spec fn pmag(p: PointM) -> int {
    max(cmag(p.x), max(cmag(p.y), cmag(p.z)))
}

/// The sequence of models of a sequence of points.
pub open spec fn view_points(s: Seq<Point3>) -> Seq<PointM> {
    s.map_values(|p: Point3| p@)
}

/// Magnitudes are never negative.
pub proof fn lemma_pmag_nonneg(p: PointM)
    ensures
        pmag(p) >= 0,
{
}

/// The magnitude of a coordinate sum is at most the sum of the magnitudes.
pub proof fn lemma_cadd_mag(a: CoordM, b: CoordM)
    ensures
        cmag(cadd(a, b)) <= cmag(a) + cmag(b),
{
}

/// The magnitude of a sum is at most the sum of the magnitudes.
pub proof fn lemma_padd_mag(a: PointM, b: PointM)
    ensures
        pmag(padd(a, b)) <= pmag(a) + pmag(b),
{
    lemma_cadd_mag(a.x, b.x);
    lemma_cadd_mag(a.y, b.y);
    lemma_cadd_mag(a.z, b.z);
}

/// Doubling a point doubles its magnitude.
pub proof fn lemma_pdouble_mag(p: PointM)
    ensures
        pmag(pscale(2, p)) == 2 * pmag(p),
{
}

/// Scaling by `a` after scaling by `b` is scaling by `a * b`.
pub proof fn lemma_cscale_cscale(a: int, b: int, c: CoordM)
    ensures
        cscale(a, cscale(b, c)) == cscale(a * b, c),
{
    assert(a * (b * c.u) == (a * b) * c.u) by (nonlinear_arith);
    assert(a * (b * c.r2) == (a * b) * c.r2) by (nonlinear_arith);
    assert(a * (b * c.r3) == (a * b) * c.r3) by (nonlinear_arith);
}

/// Scaling by `a` after scaling by `b` is scaling by `a * b`, on points.
pub proof fn lemma_pscale_pscale(a: int, b: int, p: PointM)
    ensures
        pscale(a, pscale(b, p)) == pscale(a * b, p),
{
    lemma_cscale_cscale(a, b, p.x);
    lemma_cscale_cscale(a, b, p.y);
    lemma_cscale_cscale(a, b, p.z);
}

/// Scaling distributes over coordinate addition.
pub proof fn lemma_cscale_cadd(k: int, a: CoordM, b: CoordM)
    ensures
        cscale(k, cadd(a, b)) == cadd(cscale(k, a), cscale(k, b)),
{
    assert(k * (a.u + b.u) == k * a.u + k * b.u) by (nonlinear_arith);
    assert(k * (a.r2 + b.r2) == k * a.r2 + k * b.r2) by (nonlinear_arith);
    assert(k * (a.r3 + b.r3) == k * a.r3 + k * b.r3) by (nonlinear_arith);
}

/// Scaling distributes over point addition.
pub proof fn lemma_pscale_padd(k: int, a: PointM, b: PointM)
    ensures
        pscale(k, padd(a, b)) == padd(pscale(k, a), pscale(k, b)),
{
    lemma_cscale_cadd(k, a.x, b.x);
    lemma_cscale_cadd(k, a.y, b.y);
    lemma_cscale_cadd(k, a.z, b.z);
}

} // verus!
