//! The recursive Sierpinski subdivider.
//!
//! [`sierpinski`] subdivides the tetrahedron at its base point into four
//! self-similar children — one toward each corner, at the midpoint between
//! the base and that corner, at half the scale — down to the requested
//! depth, and emits the 12-point surface mesh of every leaf tetrahedron,
//! depth first, in the fixed corner order `p0, p1, p2, p3`.
//!
//! Inputs are read at a denominator exponent `e` of the caller's choice;
//! the output points are at `e + 2*levels + 1`.  Each subdivision step
//! deepens the exponent by two (one doubling for the midpoint, one because
//! the child scale is half the parent's), and the leaf mesh deepens it
//! once more, so every output point lands at the same exponent and no
//! numerator is ever divided.

use crate::point::lemma_pmag_nonneg;
use crate::point::padd;
use crate::point::pmag;
use crate::point::pscale;
use crate::point::view_points;
use crate::point::Coord;
use crate::point::Point3;
use crate::point::PointM;
use crate::point::MAG_LIMIT;
use crate::tetrahedron::corner_model;
use crate::tetrahedron::lemma_corner_mag;
use crate::tetrahedron::tetra_mesh_model;
use crate::tetrahedron::tetrahedron_corners;
use vstd::arithmetic::mul::lemma_mul_inequality;
use vstd::arithmetic::mul::lemma_mul_upper_bound;
use vstd::math::abs;
use vstd::prelude::*;

verus! {

/// Largest recursion depth that [`generate_sierpinski`] accepts.  The
/// output has `12 * 4^levels` points, so depths beyond this both exhaust
/// memory and outgrow the numerator headroom that the input bounds leave.
pub const MAX_LEVELS: u8 = 10;

/// Largest numerator magnitude that [`generate_sierpinski`] accepts in its
/// base point.
pub const COORD_LIMIT: i64 = 0x100_0000_0000;

/// Largest scale magnitude that [`generate_sierpinski`] accepts.
pub const SCALE_LIMIT: i64 = 0x100_0000_0000;

/// The rejected inputs of [`generate_sierpinski`].
#[derive(Clone, Copy, Debug, PartialEq, Eq, Structural)]
pub enum FractalError {
    /// The recursion depth exceeds [`MAX_LEVELS`].
    InvalidDepth,
}

/// `4^l`.
pub open spec fn pow4(l: nat) -> int
    decreases l,
{
    if l == 0 {
        1
    } else {
        4 * pow4((l - 1) as nat)
    }
}

/// `4^l` is at least 1.
pub proof fn lemma_pow4_pos(l: nat)
    ensures
        pow4(l) >= 1,
    decreases l,
{
    if l > 0 {
        lemma_pow4_pos((l - 1) as nat);
    }
}

/// `4^l` grows with `l`.
pub proof fn lemma_pow4_mono(a: nat, b: nat)
    requires
        a <= b,
    ensures
        pow4(a) <= pow4(b),
    decreases b,
{
    if a < b {
        lemma_pow4_mono(a, (b - 1) as nat);
        lemma_pow4_pos((b - 1) as nat);
    }
}

/// Headroom for running the subdivider: the combined magnitude of the
/// base and the scale, multiplied by the total denominator growth
/// `2 * 4^levels` of the recursion, stays within [`MAG_LIMIT`].  Every
/// intermediate numerator of the recursion is bounded by that product.
pub open spec fn fits(b: PointM, s: int, l: nat) -> bool {
    (pmag(b) + abs(s)) * (2 * pow4(l)) <= MAG_LIMIT as int
}

/// Base point of child `i` of the tetrahedron at `(b, s)`: the midpoint
/// between `b` and corner `i`, two denominator exponents below `b`.
pub open spec fn child_model(b: PointM, s: int, i: int) -> PointM {
    padd(pscale(2, b), corner_model(b, s, i))
}

/// Every point the subdivider emits for `(b, s, l)`, in order: at depth 0
/// the 12-point leaf mesh, otherwise the four children's sequences
/// concatenated in corner order.  The points are `2*l + 1` denominator
/// exponents below `b` and `s`.
pub open spec fn sierpinski_model(b: PointM, s: int, l: nat) -> Seq<PointM>
    decreases l,
{
    if l == 0 {
        tetra_mesh_model(b, s)
    } else {
        sierpinski_model(child_model(b, s, 0), 2 * s, (l - 1) as nat) + sierpinski_model(
            child_model(b, s, 1),
            2 * s,
            (l - 1) as nat,
        ) + sierpinski_model(child_model(b, s, 2), 2 * s, (l - 1) as nat) + sierpinski_model(
            child_model(b, s, 3),
            2 * s,
            (l - 1) as nat,
        )
    }
}

/// Headroom at depth `l` covers the one doubling of the leaf step.
proof fn lemma_fits_leaf(b: PointM, s: int, l: nat)
    requires
        fits(b, s, l),
    ensures
        (pmag(b) + abs(s)) * 2 <= MAG_LIMIT as int,
{
    lemma_pmag_nonneg(b);
    lemma_pow4_pos(l);
    let w: int = pmag(b) + abs(s);
    assert(w * 2 <= w * (2 * pow4(l))) by (nonlinear_arith)
        requires
            w >= 0,
            pow4(l) >= 1,
    ;
}

/// Headroom at depth `l >= 1` covers the two doublings of a subdivision
/// step and the one of the leaf step after it.
proof fn lemma_fits_deep(b: PointM, s: int, l: nat)
    requires
        fits(b, s, l),
        l >= 1,
    ensures
        (pmag(b) + abs(s)) * 8 <= MAG_LIMIT as int,
{
    lemma_pmag_nonneg(b);
    lemma_pow4_pos((l - 1) as nat);
    let w: int = pmag(b) + abs(s);
    assert(w * 8 <= w * (2 * pow4(l))) by (nonlinear_arith)
        requires
            w >= 0,
            pow4(l) == 4 * pow4((l - 1) as nat),
            pow4((l - 1) as nat) >= 1,
    ;
}

/// A subdivision step preserves the headroom: each child, at twice the
/// scale numerator and two denominator exponents deeper, still fits.
proof fn lemma_fits_child(b: PointM, s: int, l: nat, i: int)
    requires
        fits(b, s, l),
        l >= 1,
    ensures
        fits(child_model(b, s, i), 2 * s, (l - 1) as nat),
{
    lemma_pmag_nonneg(b);
    lemma_corner_mag(b, s, i);
    crate::point::lemma_padd_mag(pscale(2, b), corner_model(b, s, i));
    crate::point::lemma_pdouble_mag(b);
    let w: int = pmag(b) + abs(s);
    let wc: int = pmag(child_model(b, s, i)) + abs(2 * s);
    let q: int = pow4((l - 1) as nat);
    lemma_pow4_pos((l - 1) as nat);
    assert(wc <= 4 * w);
    lemma_mul_inequality(wc, 4 * w, 2 * q);
    assert((4 * w) * (2 * q) == w * (2 * (4 * q))) by (nonlinear_arith);
}

/// Numerators of the midpoint between `base` and a corner of its
/// tetrahedron.
///
/// `base` is read at some exponent `e` and `corner` at `e + 1`; the
/// midpoint comes back at `e + 2`.
fn midpoint_toward(base: &Point3, corner: &Point3) -> (m: Point3)
    requires
        pmag(base@) * 2 + pmag(corner@) <= MAG_LIMIT as int,
    ensures
        m@ == padd(pscale(2, base@), corner@),
{
    Point3 {
        x: Coord {
            u: 2 * base.x.u + corner.x.u,
            r2: 2 * base.x.r2 + corner.x.r2,
            r3: 2 * base.x.r3 + corner.x.r3,
        },
        y: Coord {
            u: 2 * base.y.u + corner.y.u,
            r2: 2 * base.y.r2 + corner.y.r2,
            r3: 2 * base.y.r3 + corner.y.r3,
        },
        z: Coord {
            u: 2 * base.z.u + corner.z.u,
            r2: 2 * base.z.r2 + corner.z.r2,
            r3: 2 * base.z.r3 + corner.z.r3,
        },
    }
}

/// Appends every point of `sierpinski_model(base@, scale, levels)` to
/// `out`, depth first, in corner order.
fn subdivide(base: &Point3, scale: i64, levels: u8, out: &mut Vec<Point3>)
    requires
        fits(base@, scale as int, levels as nat),
    ensures
        view_points(final(out)@) == view_points(old(out)@) + sierpinski_model(
            base@,
            scale as int,
            levels as nat,
        ),
    decreases levels,
{
    if levels == 0 {
        proof {
            lemma_fits_leaf(base@, scale as int, 0);
        }
        let t = tetrahedron_corners(base, scale);
        out.push(t.p0);
        out.push(t.p2);
        out.push(t.p1);
        out.push(t.p0);
        out.push(t.p1);
        out.push(t.p3);
        out.push(t.p0);
        out.push(t.p3);
        out.push(t.p2);
        out.push(t.p1);
        out.push(t.p2);
        out.push(t.p3);
        proof {
            assert(view_points(out@) =~= view_points(old(out)@) + sierpinski_model(
                base@,
                scale as int,
                levels as nat,
            ));
        }
    } else {
        proof {
            lemma_fits_deep(base@, scale as int, levels as nat);
            lemma_pmag_nonneg(base@);
            lemma_corner_mag(base@, scale as int, 0);
            lemma_corner_mag(base@, scale as int, 1);
            lemma_corner_mag(base@, scale as int, 2);
            lemma_corner_mag(base@, scale as int, 3);
            lemma_fits_child(base@, scale as int, levels as nat, 0);
            lemma_fits_child(base@, scale as int, levels as nat, 1);
            lemma_fits_child(base@, scale as int, levels as nat, 2);
            lemma_fits_child(base@, scale as int, levels as nat, 3);
        }
        let t = tetrahedron_corners(base, scale);
        let s2: i64 = 2 * scale;
        let c0 = midpoint_toward(base, &t.p0);
        subdivide(&c0, s2, levels - 1, out);
        let c1 = midpoint_toward(base, &t.p1);
        subdivide(&c1, s2, levels - 1, out);
        let c2 = midpoint_toward(base, &t.p2);
        subdivide(&c2, s2, levels - 1, out);
        let c3 = midpoint_toward(base, &t.p3);
        subdivide(&c3, s2, levels - 1, out);
        proof {
            assert(view_points(out@) =~= view_points(old(out)@) + sierpinski_model(
                base@,
                scale as int,
                levels as nat,
            ));
        }
    }
}

/// The complete triangulated surface of the depth-`levels` Sierpinski
/// approximation of the tetrahedron at `base` with the given scale:
/// `12 * 4^levels` points, three per triangle, concatenated depth first in
/// the fixed corner order.
///
/// Inputs are read at a denominator exponent `e` of the caller's choice;
/// the points come back at `e + 2*levels + 1`.
pub fn sierpinski(base: &Point3, scale: i64, levels: u8) -> (points: Vec<Point3>)
    requires
        fits(base@, scale as int, levels as nat),
    ensures
        view_points(points@) == sierpinski_model(base@, scale as int, levels as nat),
        points@.len() == 12 * pow4(levels as nat),
{
    let mut points: Vec<Point3> = Vec::new();
    subdivide(base, scale, levels, &mut points);
    proof {
        assert(view_points(points@) =~= sierpinski_model(base@, scale as int, levels as nat));
        crate::laws::lemma_growth_law(base@, scale as int, levels as nat);
    }
    points
}

/// Establishes the subdivider's headroom from the plain input bounds of
/// [`generate_sierpinski`].
pub proof fn lemma_inputs_fit(b: PointM, s: int, l: nat)
    requires
        pmag(b) <= COORD_LIMIT as int,
        abs(s) <= SCALE_LIMIT as int,
        l <= MAX_LEVELS as nat,
    ensures
        fits(b, s, l),
{
    lemma_pmag_nonneg(b);
    lemma_pow4_pos(l);
    lemma_pow4_mono(l, MAX_LEVELS as nat);
    assert(pow4(MAX_LEVELS as nat) == 0x100000) by {
        reveal_with_fuel(pow4, 11);
    }
    let w: int = pmag(b) + abs(s);
    lemma_mul_upper_bound(w, 0x200_0000_0000, 2 * pow4(l), 0x200000);
}

/// [`sierpinski`] behind a checked depth ceiling: rejects any `levels`
/// above [`MAX_LEVELS`] with [`FractalError::InvalidDepth`] instead of
/// imposing a precondition on the depth, and otherwise returns exactly the
/// points of [`sierpinski_model`].
pub fn generate_sierpinski(base: &Point3, scale: i64, levels: u8) -> (result: Result<
    Vec<Point3>,
    FractalError,
>)
    requires
        pmag(base@) <= COORD_LIMIT as int,
        abs(scale as int) <= SCALE_LIMIT as int,
    ensures
        levels <= MAX_LEVELS ==> (result matches Ok(points) && view_points(points@)
            == sierpinski_model(base@, scale as int, levels as nat) && points@.len() == 12 * pow4(
            levels as nat,
        )),
        levels > MAX_LEVELS ==> (result matches Err(e) && e == FractalError::InvalidDepth),
{
    if levels > MAX_LEVELS {
        Err(FractalError::InvalidDepth)
    } else {
        proof {
            lemma_inputs_fit(base@, scale as int, levels as nat);
        }
        Ok(sierpinski(base, scale, levels))
    }
}

} // verus!
