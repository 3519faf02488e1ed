use sierpinski::{sierpinski, tetrahedron_corners, Coord, Point3};

/// Value of a coordinate at denominator exponent `exp`.
fn coord_val(c: &Coord, exp: i32) -> f64 {
    (c.u as f64 + c.r2 as f64 * 2f64.sqrt() + c.r3 as f64 * 3f64.sqrt()) / 2f64.powi(exp)
}

/// Numerator triples of one point's three coordinates.
fn numerators(p: &Point3) -> [[i64; 3]; 3] {
    [
        [p.x.u, p.x.r2, p.x.r3],
        [p.y.u, p.y.r2, p.y.r3],
        [p.z.u, p.z.r2, p.z.r3],
    ]
}

#[test]
fn winding_order_of_first_face() {
    let base = Point3::new(3, 1, -2);
    let s = 6i64;
    let t = tetrahedron_corners(&base, s);
    let points = sierpinski(&base, s, 0);
    assert_eq!(points[0], t.p0);
    assert_eq!(points[1], t.p2);
    assert_eq!(points[2], t.p1);
}

#[test]
fn scale_invariance_exact() {
    // Scaling the scale by k scales every offset from the base by k,
    // exactly, numerator by numerator.
    let (bx, by, bz) = (3i64, 1i64, -2i64);
    let base = Point3::new(bx, by, bz);
    let s = 7i64;
    let k = 5i64;
    let levels = 2u8;
    let small = sierpinski(&base, s, levels);
    let large = sierpinski(&base, k * s, levels);
    assert_eq!(small.len(), large.len());
    // the base point carried to the output exponent 2*levels + 1
    let carried = 1i64 << (2 * levels + 1);
    let base_at_out = [
        [bx * carried, 0, 0],
        [by * carried, 0, 0],
        [bz * carried, 0, 0],
    ];
    for (ps, pl) in small.iter().zip(large.iter()) {
        let ns = numerators(ps);
        let nl = numerators(pl);
        for axis in 0..3 {
            for part in 0..3 {
                let offset_small = ns[axis][part] - base_at_out[axis][part];
                let offset_large = nl[axis][part] - base_at_out[axis][part];
                assert_eq!(offset_large, k * offset_small);
            }
        }
    }
}

#[test]
fn scale_invariance_float() {
    // The same law read off in floating point: output(base, k*s) - base
    // equals k * (output(base, s) - base) within tolerance.
    let base = Point3::new(2, -1, 4);
    let basef = [2.0f64, -1.0, 4.0];
    let s = 3i64;
    let k = 4i64;
    let levels = 3u8;
    let exp = 2 * levels as i32 + 1;
    let small = sierpinski(&base, s, levels);
    let large = sierpinski(&base, k * s, levels);
    for (ps, pl) in small.iter().zip(large.iter()) {
        let vs = [coord_val(&ps.x, exp), coord_val(&ps.y, exp), coord_val(&ps.z, exp)];
        let vl = [coord_val(&pl.x, exp), coord_val(&pl.y, exp), coord_val(&pl.z, exp)];
        for axis in 0..3 {
            let want = k as f64 * (vs[axis] - basef[axis]);
            let got = vl[axis] - basef[axis];
            assert!((got - want).abs() <= 1e-9, "got {} want {}", got, want);
        }
    }
}

#[test]
fn translation_moves_every_point() {
    // The base is an additive origin: moving it by one unit moves every
    // output numerator of the plain part by the carried unit.
    let levels = 2u8;
    let s = 3i64;
    let at_origin = sierpinski(&Point3::new(0, 0, 0), s, levels);
    let moved = sierpinski(&Point3::new(1, 0, 0), s, levels);
    let carried = 1i64 << (2 * levels + 1);
    for (po, pm) in at_origin.iter().zip(moved.iter()) {
        assert_eq!(pm.x.u, po.x.u + carried);
        assert_eq!(pm.x.r2, po.x.r2);
        assert_eq!(pm.x.r3, po.x.r3);
        assert_eq!(pm.y, po.y);
        assert_eq!(pm.z, po.z);
    }
}
