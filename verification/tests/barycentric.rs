use reterminal_e100x::barycentric::geom::{GeomError, Point};
use reterminal_e100x::barycentric::line::LineProjector;
use reterminal_e100x::barycentric::octahedron::OctahedronProjector;
use reterminal_e100x::barycentric::tetrahedron::TetrahedronProjector;
use reterminal_e100x::barycentric::triangle::{ClippingTriangleProjector, TriangleProjector};

fn pt(x: i64, y: i64, z: i64) -> Point {
    Point { x, y, z }
}

#[test]
fn line_project_midpoint() {
    let l = LineProjector::new([pt(0, 0, 0), pt(2, 0, 0)]);
    let b = l.project(&pt(1, 0, 0));
    // (1/2, 1/2) over the segment's squared length.
    assert_eq!(b.den, 4);
    assert_eq!(b.n0, 2);
    assert_eq!(b.n1, 2);
}

#[test]
fn line_degenerate_returns_origin_weight() {
    // A zero-length segment projects every query to (1, 0), without
    // dividing by zero.
    let l = LineProjector::new([pt(3, 3, 3), pt(3, 3, 3)]);
    let b = l.project(&pt(-5, 9, 0));
    assert_eq!((b.n0, b.n1, b.den), (1, 0, 1));
}

#[test]
fn line_clipping_snaps_to_endpoints() {
    let l = LineProjector::new([pt(0, 0, 0), pt(2, 0, 0)]);
    let (beyond, clipped_far) = l.clipping_project(&pt(3, 0, 0));
    assert!(clipped_far);
    assert_eq!((beyond.n0, beyond.n1, beyond.den), (0, 1, 1));
    let (before, clipped_near) = l.clipping_project(&pt(-1, 0, 0));
    assert!(clipped_near);
    assert_eq!((before.n0, before.n1, before.den), (1, 0, 1));
    let (inside, clipped_inside) = l.clipping_project(&pt(1, 0, 0));
    assert!(!clipped_inside);
    assert_eq!(inside.n0 + inside.n1, inside.den);
}

#[test]
fn line_round_trip_on_segment() {
    let l = LineProjector::new([pt(1, 2, 3), pt(5, 2, 3)]);
    let p = pt(3, 2, 3);
    let b = l.project(&p);
    let rp = l.bary_to_point(&b);
    // The reconstructed rational point equals the query exactly.
    assert_eq!(rp.xn, p.x as i128 * rp.den);
    assert_eq!(rp.yn, p.y as i128 * rp.den);
    assert_eq!(rp.zn, p.z as i128 * rp.den);
}

#[test]
fn triangle_projects_to_plane_weights() {
    let t = TriangleProjector::new([pt(0, 0, 0), pt(2, 0, 0), pt(0, 2, 0)]).unwrap();
    let b = t.project(&pt(1, 1, 0));
    // Midpoint of the edge between the second and third vertex.
    assert_eq!(b.den, 16);
    assert_eq!((b.n0, b.n1, b.n2), (0, 8, 8));
}

#[test]
fn triangle_weights_sum_to_one_off_plane() {
    let t = TriangleProjector::new([pt(0, 0, 0), pt(2, 0, 0), pt(0, 2, 0)]).unwrap();
    let b = t.project(&pt(7, -3, 11));
    assert_eq!(b.n0 + b.n1 + b.n2, b.den);
    assert!(b.den > 0);
}

#[test]
fn triangle_rejects_collinear_vertices() {
    let r = TriangleProjector::new([pt(0, 0, 0), pt(1, 1, 1), pt(2, 2, 2)]);
    assert!(matches!(r, Err(GeomError::Degenerate)));
    let rc = ClippingTriangleProjector::new([pt(0, 0, 0), pt(1, 0, 0), pt(2, 0, 0)]);
    assert!(matches!(rc, Err(GeomError::Degenerate)));
}

#[test]
fn triangle_round_trip_in_plane() {
    let t = ClippingTriangleProjector::new([pt(0, 0, 0), pt(4, 0, 0), pt(0, 4, 0)]).unwrap();
    let p = pt(1, 2, 0);
    let b = t.project(&p);
    let rp = t.bary_to_point(&b);
    // A point of the triangle's plane comes back exactly.
    assert_eq!(rp.xn, p.x as i128 * rp.den);
    assert_eq!(rp.yn, p.y as i128 * rp.den);
    assert_eq!(rp.zn, p.z as i128 * rp.den);
}

#[test]
fn clipping_triangle_inside_is_unclipped() {
    let t = ClippingTriangleProjector::new([pt(0, 0, 0), pt(4, 0, 0), pt(0, 4, 0)]).unwrap();
    let (b, clipped, dist) = t.clipping_project(&pt(1, 1, 0));
    assert!(!clipped);
    assert!(dist.is_none());
    assert_eq!(b.n0 + b.n1 + b.n2, b.den);
    assert!(b.n0 >= 0 && b.n1 >= 0 && b.n2 >= 0);
}

#[test]
fn clipping_triangle_snaps_to_edge() {
    let t = ClippingTriangleProjector::new([pt(0, 0, 0), pt(4, 0, 0), pt(0, 4, 0)]).unwrap();
    // Below the edge opposite the third vertex: the closest point lies
    // on it, strictly between its endpoints, so it is returned at once,
    // with the weight split over that edge's two vertices.
    let (b, clipped, dist) = t.clipping_project(&pt(2, -2, 0));
    assert!(clipped);
    assert!(dist.is_none());
    assert_eq!((b.n0, b.n1, b.n2, b.den), (8, 8, 0, 16));
}

#[test]
fn clipping_triangle_corner_candidates() {
    let t = ClippingTriangleProjector::new([pt(0, 0, 0), pt(4, 0, 0), pt(0, 4, 0)]).unwrap();
    // Beyond the corner at (4, 0, 0): the edge projection clips to the
    // corner, so candidates are compared by squared distance.
    let (b, clipped, dist) = t.clipping_project(&pt(6, -2, 0));
    assert!(clipped);
    assert!(b.n0 >= 0 && b.n1 >= 0 && b.n2 >= 0);
    assert_eq!(b.n0 + b.n1 + b.n2, b.den);
    // All surviving weight sits on the corner vertex.
    assert_eq!(b.n0, 0);
    assert_eq!(b.n2, 0);
    assert_eq!(b.n1, b.den);
    let d = dist.expect("distance is reported when candidates were compared");
    // Squared distance 8 from (6, -2, 0) to (4, 0, 0), as an exact ratio.
    assert_eq!(d.num, 8 * d.den);
}

#[test]
fn tetrahedron_round_trip_is_exact() {
    let t = TetrahedronProjector::new([pt(0, 0, 0), pt(1, 0, 0), pt(0, 1, 0), pt(0, 0, 1)])
        .unwrap();
    let p = pt(3, 5, 7);
    let b = t.project(&p);
    assert_eq!(b.n0 + b.n1 + b.n2 + b.n3, b.den);
    let rp = t.bary_to_point(&b);
    assert_eq!(rp.xn, p.x as i128 * rp.den);
    assert_eq!(rp.yn, p.y as i128 * rp.den);
    assert_eq!(rp.zn, p.z as i128 * rp.den);
}

#[test]
fn tetrahedron_vertices_are_one_hot() {
    let t = TetrahedronProjector::new([pt(0, 0, 2), pt(0, 0, -2), pt(2, 0, 0), pt(0, 2, 0)])
        .unwrap();
    let b = t.project(&pt(0, 0, 2));
    assert_eq!((b.n1, b.n2, b.n3), (0, 0, 0));
    assert_eq!(b.n0, b.den);
    let b2 = t.project(&pt(0, 2, 0));
    assert_eq!((b2.n0, b2.n1, b2.n2), (0, 0, 0));
    assert_eq!(b2.n3, b2.den);
}

#[test]
fn tetrahedron_rejects_coplanar_vertices() {
    let r = TetrahedronProjector::new([pt(0, 0, 0), pt(1, 0, 0), pt(0, 1, 0), pt(1, 1, 0)]);
    assert!(matches!(r, Err(GeomError::Degenerate)));
}

fn octahedron() -> OctahedronProjector {
    OctahedronProjector::new([
        pt(0, 0, 2),
        pt(0, 0, -2),
        pt(2, 0, 0),
        pt(0, 2, 0),
        pt(-2, 0, 0),
        pt(0, -2, 0),
    ])
    .unwrap()
}

#[test]
fn octahedron_rejects_degenerate_vertices() {
    let r = OctahedronProjector::new([
        pt(0, 0, 0),
        pt(0, 0, 0),
        pt(2, 0, 0),
        pt(0, 2, 0),
        pt(-2, 0, 0),
        pt(0, -2, 0),
    ]);
    assert!(matches!(r, Err(GeomError::Degenerate)));
}

#[test]
fn octahedron_vertices_are_one_hot() {
    let o = octahedron();
    let vs = [
        pt(0, 0, 2),
        pt(0, 0, -2),
        pt(2, 0, 0),
        pt(0, 2, 0),
        pt(-2, 0, 0),
        pt(0, -2, 0),
    ];
    for (k, v) in vs.iter().enumerate() {
        let b = o.project(v);
        let w = [b.n0, b.n1, b.n2, b.n3, b.n4, b.n5];
        for (i, wi) in w.iter().enumerate() {
            if i == k {
                assert_eq!(*wi, b.den, "vertex {k} weight");
            } else {
                assert_eq!(*wi, 0, "vertex {k} slot {i}");
            }
        }
    }
}

#[test]
fn octahedron_pole_query_is_one_hot() {
    // Query above the first pole: the closest boundary point is the pole.
    let o = octahedron();
    let b = o.project(&pt(0, 0, 4));
    assert_eq!(b.n0, b.den);
    assert_eq!((b.n1, b.n2, b.n3, b.n4, b.n5), (0, 0, 0, 0, 0));
}

#[test]
fn octahedron_exterior_query_avoids_far_pole() {
    let o = octahedron();
    let b = o.project(&pt(4, 4, 4));
    // Valid weights, with nothing on the opposite pole.
    assert!(b.den > 0);
    assert!(b.n0 >= 0 && b.n1 >= 0 && b.n2 >= 0 && b.n3 >= 0 && b.n4 >= 0 && b.n5 >= 0);
    assert_eq!(b.n0 + b.n1 + b.n2 + b.n3 + b.n4 + b.n5, b.den);
    assert_eq!(b.n1, 0);
}

#[test]
fn octahedron_equator_edge_midpoint_splits_two_ways() {
    let o = octahedron();
    let b = o.project(&pt(1, 1, 0));
    assert_eq!((b.n0, b.n1, b.n4, b.n5), (0, 0, 0, 0));
    assert!(b.n2 > 0 && b.n3 > 0);
    assert_eq!(b.n2 + b.n3, b.den);
    assert_eq!(b.n2, b.n3);
}

#[test]
fn octahedron_interior_query_is_valid() {
    let o = octahedron();
    let b = o.project(&pt(0, 1, 0));
    assert!(b.n0 >= 0 && b.n1 >= 0 && b.n2 >= 0 && b.n3 >= 0 && b.n4 >= 0 && b.n5 >= 0);
    assert_eq!(b.n0 + b.n1 + b.n2 + b.n3 + b.n4 + b.n5, b.den);
    // The query is the midpoint between the center and an equatorial
    // vertex, inside the octahedron; its own weight dominates.
    assert_eq!(2 * b.n3, b.den);
}

#[test]
fn octahedron_rotated_labels_give_permuted_weights() {
    // Rebuilding with the equatorial ring relabeled by one step yields
    // the same geometric answer with consistently permuted weights.
    let o1 = octahedron();
    let o2 = OctahedronProjector::new([
        pt(0, 0, 2),
        pt(0, 0, -2),
        pt(0, 2, 0),
        pt(-2, 0, 0),
        pt(0, -2, 0),
        pt(2, 0, 0),
    ])
    .unwrap();
    let queries = [pt(3, 1, 2), pt(1, 3, -2), pt(-3, -1, 1), pt(1, 1, 0), pt(0, 0, 4)];
    for q in queries.iter() {
        let a = o1.project(q);
        let b = o2.project(q);
        assert_eq!(a.den, b.den, "query {q:?}");
        // Slot k of the relabeled solver is slot sigma(k) of the
        // original: poles fixed, ring advanced by one.
        assert_eq!(a.n0, b.n0, "query {q:?}");
        assert_eq!(a.n1, b.n1, "query {q:?}");
        assert_eq!(a.n3, b.n2, "query {q:?}");
        assert_eq!(a.n4, b.n3, "query {q:?}");
        assert_eq!(a.n5, b.n4, "query {q:?}");
        assert_eq!(a.n2, b.n5, "query {q:?}");
    }
}

#[test]
fn clipping_triangle_always_returns_affine_weights() {
    // The clipped projection always comes back non-negative and summing
    // to one, wherever the query sits.
    let t = ClippingTriangleProjector::new([pt(1, 2, 0), pt(5, 1, 1), pt(2, 6, -1)]).unwrap();
    let queries = [
        pt(0, 0, 0),
        pt(10, 10, 10),
        pt(-8, 3, 2),
        pt(3, 3, 0),
        pt(7, -7, 5),
        pt(-1, -1, -1),
    ];
    for q in queries.iter() {
        let (b, _, _) = t.clipping_project(q);
        assert!(b.n0 >= 0 && b.n1 >= 0 && b.n2 >= 0, "query {q:?}");
        assert_eq!(b.n0 + b.n1 + b.n2, b.den, "query {q:?}");
        assert!(b.den > 0, "query {q:?}");
    }
}

#[test]
fn octahedron_always_returns_affine_weights() {
    // Interior, exterior, axis, face, edge and corner-ish queries all
    // come back non-negative and summing to one.
    let o = octahedron();
    let queries = [
        pt(0, 0, 0),
        pt(1, 0, 0),
        pt(0, 0, 1),
        pt(5, 5, 5),
        pt(-5, 5, -5),
        pt(9, -1, 0),
        pt(-2, -2, 2),
        pt(1, 1, 1),
        pt(-1, 2, -3),
        pt(60, 60, 60),
    ];
    for q in queries.iter() {
        let b = o.project(q);
        assert!(
            b.n0 >= 0 && b.n1 >= 0 && b.n2 >= 0 && b.n3 >= 0 && b.n4 >= 0 && b.n5 >= 0,
            "query {q:?}"
        );
        assert_eq!(b.n0 + b.n1 + b.n2 + b.n3 + b.n4 + b.n5, b.den, "query {q:?}");
        assert!(b.den > 0, "query {q:?}");
    }
}

#[test]
fn octahedron_face_query_uses_three_vertices() {
    // Outside the octahedron, opposite the face spanned by the first
    // pole and the first two equatorial vertices.
    let o = octahedron();
    let b = o.project(&pt(2, 2, 2));
    assert_eq!((b.n1, b.n4, b.n5), (0, 0, 0));
    assert!(b.n0 > 0 && b.n2 > 0 && b.n3 > 0);
    assert_eq!(b.n0 + b.n2 + b.n3, b.den);
}
