//! Proved laws of the subdivider.
//!
//! The lemmas here state the global shape of [`sierpinski_model`]: how
//! large it is, how it begins, that it is a function of its inputs alone,
//! and how it responds to scaling — the last through an affine
//! decomposition that separates the base point from the pure unit fractal.

use crate::fractal::child_model;
use crate::fractal::pow4;
use crate::fractal::sierpinski_model;
use crate::point::lemma_pscale_padd;
use crate::point::lemma_pscale_pscale;
use crate::point::origin;
use crate::point::padd;
use crate::point::pscale;
use crate::point::psub;
use crate::point::PointM;
use crate::tetrahedron::corner_model;
use crate::tetrahedron::corner_offset;
use crate::tetrahedron::lemma_corner_offset_linear;
use vstd::prelude::*;

verus! {

/// The unit fractal: the subdivider's output for the origin at scale 1.
/// By [`lemma_affine_decomposition`] every other output is an affine image
/// of this one.
pub open spec fn unit_model(l: nat) -> Seq<PointM> {
    sierpinski_model(origin(), 1, l)
}

/// At depth 0 the output is exactly the 12 surface points of one
/// tetrahedron, whatever the base and scale.
pub proof fn lemma_base_case_size(b: PointM, s: int)
    ensures
        sierpinski_model(b, s, 0).len() == 12,
{
}

/// Growth law: the output for depth `l` has exactly `12 * 4^l` points,
/// whatever the base and scale.
pub proof fn lemma_growth_law(b: PointM, s: int, l: nat)
    ensures
        sierpinski_model(b, s, l).len() == 12 * pow4(l),
    decreases l,
{
    if l > 0 {
        lemma_growth_law(child_model(b, s, 0), 2 * s, (l - 1) as nat);
        lemma_growth_law(child_model(b, s, 1), 2 * s, (l - 1) as nat);
        lemma_growth_law(child_model(b, s, 2), 2 * s, (l - 1) as nat);
        lemma_growth_law(child_model(b, s, 3), 2 * s, (l - 1) as nat);
    }
}

/// Winding order: at depth 0 the first face is `(p0, p2, p1)` — the
/// output opens with corner 0, then corner 2, then corner 1.
pub proof fn lemma_winding_order(b: PointM, s: int)
    ensures
        sierpinski_model(b, s, 0)[0] == corner_model(b, s, 0),
        sierpinski_model(b, s, 0)[1] == corner_model(b, s, 2),
        sierpinski_model(b, s, 0)[2] == corner_model(b, s, 1),
{
}

/// One corner as an affine image of the matching unit corner.
proof fn lemma_corner_affine(b: PointM, s: int, j: int)
    ensures
        corner_model(b, s, j) == padd(pscale(2, b), pscale(s, corner_model(origin(), 1, j))),
{
    lemma_pscale_padd(s, pscale(2, origin()), corner_offset(1, j));
    lemma_corner_offset_linear(s, j);
    assert(pscale(s, pscale(2, origin())) == origin()) by {
        lemma_pscale_pscale(s, 2, origin());
    }
}

/// One subdivision step as an affine image of the matching unit step:
/// pushing an affine description of a child's output up through the
/// child's base and scale yields the parent's affine description.
proof fn lemma_child_affine(b: PointM, s: int, j: int, q: int, v: PointM)
    requires
        q >= 0,
    ensures
        padd(pscale(2 * q, child_model(b, s, j)), pscale(2 * s, v)) == padd(
            pscale(8 * q, b),
            pscale(s, padd(pscale(2 * q, child_model(origin(), 1, j)), pscale(2, v))),
        ),
{
    let off1 = corner_offset(1, j);
    assert(child_model(b, s, j) == padd(pscale(4, b), corner_offset(s, j)));
    assert(child_model(origin(), 1, j) == off1);
    lemma_corner_offset_linear(s, j);
    // left side: split the child base into its two affine parts
    lemma_pscale_padd(2 * q, pscale(4, b), pscale(s, off1));
    lemma_pscale_pscale(2 * q, 4, b);
    lemma_pscale_pscale(2 * q, s, off1);
    // right side: distribute the parent scale over the unit step
    lemma_pscale_padd(s, pscale(2 * q, off1), pscale(2, v));
    lemma_pscale_pscale(s, 2 * q, v);
    lemma_pscale_pscale(s, 2 * q, off1);
    lemma_pscale_pscale(s, 2, v);
    assert((2 * q) * s == s * (2 * q)) by (nonlinear_arith);
    assert((2 * q) * 4 == 8 * q) by (nonlinear_arith);
    assert(s * 2 == 2 * s);
}

/// Affine decomposition: every output point is the base, carried to the
/// output's denominator exponent, plus `scale` times the matching point
/// of the unit fractal.  The base is an additive origin and the scale a
/// pure multiplier; the shape itself depends on the depth alone.
pub proof fn lemma_affine_decomposition(b: PointM, s: int, l: nat)
    ensures
        sierpinski_model(b, s, l).len() == unit_model(l).len(),
        forall|i: int|
            0 <= i < unit_model(l).len() ==> sierpinski_model(b, s, l)[i] == padd(
                pscale(2 * pow4(l), b),
                pscale(s, unit_model(l)[i]),
            ),
    decreases l,
{
    if l == 0 {
        lemma_corner_affine(b, s, 0);
        lemma_corner_affine(b, s, 1);
        lemma_corner_affine(b, s, 2);
        lemma_corner_affine(b, s, 3);
    } else {
        let l1: nat = (l - 1) as nat;
        let q: int = pow4(l1);
        crate::fractal::lemma_pow4_pos(l1);
        let s2: int = 2 * s;
        let a0 = sierpinski_model(child_model(b, s, 0), s2, l1);
        let a1 = sierpinski_model(child_model(b, s, 1), s2, l1);
        let a2 = sierpinski_model(child_model(b, s, 2), s2, l1);
        let a3 = sierpinski_model(child_model(b, s, 3), s2, l1);
        let u0 = sierpinski_model(child_model(origin(), 1, 0), 2, l1);
        let u1 = sierpinski_model(child_model(origin(), 1, 1), 2, l1);
        let u2 = sierpinski_model(child_model(origin(), 1, 2), 2, l1);
        let u3 = sierpinski_model(child_model(origin(), 1, 3), 2, l1);
        assert(sierpinski_model(b, s, l) == a0 + a1 + a2 + a3);
        assert(unit_model(l) == u0 + u1 + u2 + u3);
        let n: nat = unit_model(l1).len();
        lemma_affine_decomposition(child_model(b, s, 0), s2, l1);
        lemma_affine_decomposition(child_model(b, s, 1), s2, l1);
        lemma_affine_decomposition(child_model(b, s, 2), s2, l1);
        lemma_affine_decomposition(child_model(b, s, 3), s2, l1);
        lemma_affine_decomposition(child_model(origin(), 1, 0), 2, l1);
        lemma_affine_decomposition(child_model(origin(), 1, 1), 2, l1);
        lemma_affine_decomposition(child_model(origin(), 1, 2), 2, l1);
        lemma_affine_decomposition(child_model(origin(), 1, 3), 2, l1);
        assert forall|j: int| 0 <= j < n implies a0[j] == padd(
            pscale(2 * pow4(l), b),
            pscale(s, u0[j]),
        ) by {
            lemma_child_affine(b, s, 0, q, unit_model(l1)[j]);
        }
        assert forall|j: int| 0 <= j < n implies a1[j] == padd(
            pscale(2 * pow4(l), b),
            pscale(s, u1[j]),
        ) by {
            lemma_child_affine(b, s, 1, q, unit_model(l1)[j]);
        }
        assert forall|j: int| 0 <= j < n implies a2[j] == padd(
            pscale(2 * pow4(l), b),
            pscale(s, u2[j]),
        ) by {
            lemma_child_affine(b, s, 2, q, unit_model(l1)[j]);
        }
        assert forall|j: int| 0 <= j < n implies a3[j] == padd(
            pscale(2 * pow4(l), b),
            pscale(s, u3[j]),
        ) by {
            lemma_child_affine(b, s, 3, q, unit_model(l1)[j]);
        }
        assert forall|i: int|
            0 <= i < unit_model(l).len() implies sierpinski_model(b, s, l)[i] == padd(
            pscale(2 * pow4(l), b),
            pscale(s, unit_model(l)[i]),
        ) by {
            if i < n {
                assert(sierpinski_model(b, s, l)[i] == a0[i]);
                assert(unit_model(l)[i] == u0[i]);
            } else if i < 2 * n {
                assert(sierpinski_model(b, s, l)[i] == a1[i - n]);
                assert(unit_model(l)[i] == u1[i - n]);
            } else if i < 3 * n {
                assert(sierpinski_model(b, s, l)[i] == a2[i - 2 * n]);
                assert(unit_model(l)[i] == u2[i - 2 * n]);
            } else {
                assert(sierpinski_model(b, s, l)[i] == a3[i - 3 * n]);
                assert(unit_model(l)[i] == u3[i - 3 * n]);
            }
        }
    }
}

/// Scale invariance of shape: multiplying the scale by `k` multiplies
/// every output point's offset from the base — both taken at the output's
/// denominator exponent — by `k`, while the number of points is unchanged.
pub proof fn lemma_scale_invariance(b: PointM, s: int, k: int, l: nat)
    ensures
        sierpinski_model(b, k * s, l).len() == sierpinski_model(b, s, l).len(),
        forall|i: int|
            0 <= i < sierpinski_model(b, s, l).len() ==> psub(
                sierpinski_model(b, k * s, l)[i],
                pscale(2 * pow4(l), b),
            ) == pscale(k, psub(sierpinski_model(b, s, l)[i], pscale(2 * pow4(l), b))),
{
    lemma_affine_decomposition(b, s, l);
    lemma_affine_decomposition(b, k * s, l);
    assert forall|i: int|
        0 <= i < sierpinski_model(b, s, l).len() implies psub(
        sierpinski_model(b, k * s, l)[i],
        pscale(2 * pow4(l), b),
    ) == pscale(k, psub(sierpinski_model(b, s, l)[i], pscale(2 * pow4(l), b))) by {
        lemma_pscale_pscale(k, s, unit_model(l)[i]);
    }
}

/// Determinism: the output is fixed by base, scale and depth alone — any
/// two sequences that both equal the model are one sequence.
pub proof fn lemma_determinism(b: PointM, s: int, l: nat, r1: Seq<PointM>, r2: Seq<PointM>)
    requires
        r1 == sierpinski_model(b, s, l),
        r2 == sierpinski_model(b, s, l),
    ensures
        r1 == r2,
{
}

} // verus!
