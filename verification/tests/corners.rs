use sierpinski::{tetrahedron, tetrahedron_corners, Coord, Point3};

/// Value of a coordinate at denominator exponent `exp`.
fn coord_val(c: &Coord, exp: i32) -> f64 {
    (c.u as f64 + c.r2 as f64 * 2f64.sqrt() + c.r3 as f64 * 3f64.sqrt()) / 2f64.powi(exp)
}

fn point_val(p: &Point3, exp: i32) -> [f64; 3] {
    [coord_val(&p.x, exp), coord_val(&p.y, exp), coord_val(&p.z, exp)]
}

fn assert_close(got: [f64; 3], want: [f64; 3], tol: f64) {
    for a in 0..3 {
        assert!(
            (got[a] - want[a]).abs() <= tol,
            "axis {}: got {} want {}",
            a,
            got[a],
            want[a]
        );
    }
}

#[test]
fn corner_formula_exactness() {
    // Unit tetrahedron at the origin, inputs at exponent 0, corners at 1.
    let t = tetrahedron_corners(&Point3::new(0, 0, 0), 1);
    let tol = 1e-5;
    assert_close(point_val(&t.p0, 1), [1.0, 0.0, 0.0], tol);
    assert_close(point_val(&t.p1, 1), [-0.5, 0.8660254, 0.0], tol);
    assert_close(point_val(&t.p2, 1), [-0.5, -0.8660254, 0.0], tol);
    assert_close(point_val(&t.p3, 1), [0.0, 0.0, 1.4142135], tol);
}

#[test]
fn corner_numerators_exact() {
    let t = tetrahedron_corners(&Point3::new(1, 2, 3), 4);
    // p0 = (x + scale, y, z), all numerators doubled for the deeper exponent
    assert_eq!(t.p0.x, Coord { u: 10, r2: 0, r3: 0 });
    assert_eq!(t.p0.y, Coord { u: 4, r2: 0, r3: 0 });
    assert_eq!(t.p0.z, Coord { u: 6, r2: 0, r3: 0 });
    // p1 = (x - scale/2, y + scale*sqrt(3)/2, z)
    assert_eq!(t.p1.x, Coord { u: -2, r2: 0, r3: 0 });
    assert_eq!(t.p1.y, Coord { u: 4, r2: 0, r3: 4 });
    assert_eq!(t.p1.z, Coord { u: 6, r2: 0, r3: 0 });
    // p2 mirrors p1 in y
    assert_eq!(t.p2.x, Coord { u: -2, r2: 0, r3: 0 });
    assert_eq!(t.p2.y, Coord { u: 4, r2: 0, r3: -4 });
    assert_eq!(t.p2.z, Coord { u: 6, r2: 0, r3: 0 });
    // p3 = (x, y, z + scale*sqrt(2))
    assert_eq!(t.p3.x, Coord { u: 2, r2: 0, r3: 0 });
    assert_eq!(t.p3.y, Coord { u: 4, r2: 0, r3: 0 });
    assert_eq!(t.p3.z, Coord { u: 6, r2: 8, r3: 0 });
}

#[test]
fn corner_formula_matches_float_reference() {
    let (bx, by, bz) = (7i64, -3i64, 11i64);
    let s = 5i64;
    let t = tetrahedron_corners(&Point3::new(bx, by, bz), s);
    let (bxf, byf, bzf, sf) = (bx as f64, by as f64, bz as f64, s as f64);
    let dy = sf * 3f64.sqrt() * 0.5;
    let dx = sf * -0.5;
    let tol = 1e-9;
    assert_close(point_val(&t.p0, 1), [bxf + sf, byf, bzf], tol);
    assert_close(point_val(&t.p1, 1), [bxf + dx, byf + dy, bzf], tol);
    assert_close(point_val(&t.p2, 1), [bxf + dx, byf - dy, bzf], tol);
    assert_close(point_val(&t.p3, 1), [bxf, byf, bzf + sf * 2f64.sqrt()], tol);
}

#[test]
fn degenerate_zero_scale_collapses() {
    // scale 0 is not rejected; every corner is the (doubled) center.
    let t = tetrahedron_corners(&Point3::new(5, 6, 7), 0);
    let center = Coord { u: 10, r2: 0, r3: 0 };
    assert_eq!(t.p0.x, center);
    assert_eq!(t.p1.x, center);
    assert_eq!(t.p2.x, center);
    assert_eq!(t.p3.x, center);
    assert_eq!(t.p0, t.p1);
    assert_eq!(t.p2, t.p3);
}

#[test]
fn negative_scale_mirrors() {
    // scale < 0 is not rejected; the tetrahedron comes out mirrored.
    let t = tetrahedron_corners(&Point3::new(0, 0, 0), -4);
    assert_eq!(t.p0.x.u, -8);
    assert_eq!(t.p1.x.u, 4);
    assert_eq!(t.p1.y.r3, -4);
    assert_eq!(t.p3.z.r2, -8);
}

#[test]
fn mesh_is_four_faces_in_fixed_order() {
    let center = Point3::new(2, 4, 6);
    let t = tetrahedron_corners(&center, 3);
    let mesh = tetrahedron(&center, 3);
    let want = [
        t.p0, t.p2, t.p1, //
        t.p0, t.p1, t.p3, //
        t.p0, t.p3, t.p2, //
        t.p1, t.p2, t.p3,
    ];
    assert_eq!(mesh.len(), 12);
    for (got, want) in mesh.iter().zip(want.iter()) {
        assert_eq!(got, want);
    }
}
