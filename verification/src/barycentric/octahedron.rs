//! Closest point on an octahedron's boundary, as barycentric weights over
//! its six vertices.
//!
//! The solver composes four tetrahedral wedges (interior fast path), eight
//! triangular faces (clean exterior projections) and twelve edges
//! (fallback candidates compared by squared distance), exactly as the
//! vertex convention prescribes: vertex 0 and 1 are the poles, vertices
//! 2 to 5 the equatorial ring in cyclic order.

use vstd::prelude::*;

use crate::barycentric::geom::{
    mc, pt_in_range, v3_sub, dist_sq_num, frac_lt, dist_sq_ratio, GeomError, Point,
    Ratio, RatioV, V3,
};
use crate::barycentric::line::{
    b2_nonneg, b2_valid, spec_line_clip, spec_line_bary_to_point, Bary2, B2, LineProjector,
};
use crate::barycentric::triangle::{
    b3_valid, spec_tri_project, spec_tri_degenerate, Bary3, B3, TriangleProjector,
};
use crate::barycentric::tetrahedron::{
    b4_valid, spec_tet_project, spec_tet_ok, Bary4, B4, TetrahedronProjector, tet_num_bound,
    tet_den_bound,
};

verus! {

/// Barycentric weights over the octahedron's six vertices, as numerators
/// over a shared positive denominator.
#[derive(Clone, Copy)]
pub struct Bary6 {
    pub n0: i128,
    pub n1: i128,
    pub n2: i128,
    pub n3: i128,
    pub n4: i128,
    pub n5: i128,
    pub den: i128,
}

/// Spec-level mirror of `Bary6`.
pub ghost struct B6 {
    pub n0: int,
    pub n1: int,
    pub n2: int,
    pub n3: int,
    pub n4: int,
    pub n5: int,
    pub den: int,
}

impl View for Bary6 {
    type V = B6;

    open spec fn view(&self) -> B6 {
        B6 {
            n0: self.n0 as int,
            n1: self.n1 as int,
            n2: self.n2 as int,
            n3: self.n3 as int,
            n4: self.n4 as int,
            n5: self.n5 as int,
            den: self.den as int,
        }
    }
}

/// The weights form an affine combination: positive denominator and
/// numerators summing to it (so the weights sum to one).
pub open spec fn b6_valid(b: B6) -> bool {
    &&& b.den > 0
    &&& b.n0 + b.n1 + b.n2 + b.n3 + b.n4 + b.n5 == b.den
}

pub open spec fn b6_nonneg(b: B6) -> bool {
    b.n0 >= 0 && b.n1 >= 0 && b.n2 >= 0 && b.n3 >= 0 && b.n4 >= 0 && b.n5 >= 0
}

/// The smallest of the four wedge weights.
pub open spec fn b4_min(b: B4) -> int {
    let m01 = if b.n0 <= b.n1 { b.n0 } else { b.n1 };
    let m012 = if m01 <= b.n2 { m01 } else { b.n2 };
    if m012 <= b.n3 { m012 } else { b.n3 }
}

/// The smallest of the three face weights.
pub open spec fn b3_min(b: B3) -> int {
    let m01 = if b.n0 <= b.n1 { b.n0 } else { b.n1 };
    if m01 <= b.n2 { m01 } else { b.n2 }
}

// ---------------------------------------------------------------------------
// Local-to-global weight placement
// ---------------------------------------------------------------------------

/// Places wedge weights into the global six slots: the two poles first,
/// then the wedge's two equatorial vertices `2 + index` and
/// `2 + (index + 1) % 4`.
pub open spec fn spec_wedge_l2g(index: int, l: B4) -> B6 {
    if index == 0 {
        B6 { n0: l.n0, n1: l.n1, n2: l.n2, n3: l.n3, n4: 0, n5: 0, den: l.den }
    } else if index == 1 {
        B6 { n0: l.n0, n1: l.n1, n2: 0, n3: l.n2, n4: l.n3, n5: 0, den: l.den }
    } else if index == 2 {
        B6 { n0: l.n0, n1: l.n1, n2: 0, n3: 0, n4: l.n2, n5: l.n3, den: l.den }
    } else {
        B6 { n0: l.n0, n1: l.n1, n2: l.n3, n3: 0, n4: 0, n5: l.n2, den: l.den }
    }
}

/// Places face weights into the global six slots: the face's pole
/// (`index / 4`), then its two equatorial vertices.
pub open spec fn spec_face_l2g(index: int, l: B3) -> B6 {
    let m = index % 4;
    let p0 = if index < 4 { l.n0 } else { 0 };
    let p1 = if index < 4 { 0 } else { l.n0 };
    if m == 0 {
        B6 { n0: p0, n1: p1, n2: l.n1, n3: l.n2, n4: 0, n5: 0, den: l.den }
    } else if m == 1 {
        B6 { n0: p0, n1: p1, n2: 0, n3: l.n1, n4: l.n2, n5: 0, den: l.den }
    } else if m == 2 {
        B6 { n0: p0, n1: p1, n2: 0, n3: 0, n4: l.n1, n5: l.n2, den: l.den }
    } else {
        B6 { n0: p0, n1: p1, n2: l.n2, n3: 0, n4: 0, n5: l.n1, den: l.den }
    }
}

/// Places edge weights into the global six slots.  Edges 0 to 7 run from
/// a pole (`index / 4`) to an equatorial vertex; edges 8 to 11 run along
/// the equatorial ring.
pub open spec fn spec_edge_l2g(index: int, l: B2) -> B6 {
    let m = index % 4;
    if index < 8 {
        let p0 = if index < 4 { l.n0 } else { 0 };
        let p1 = if index < 4 { 0 } else { l.n0 };
        if m == 0 {
            B6 { n0: p0, n1: p1, n2: l.n1, n3: 0, n4: 0, n5: 0, den: l.den }
        } else if m == 1 {
            B6 { n0: p0, n1: p1, n2: 0, n3: l.n1, n4: 0, n5: 0, den: l.den }
        } else if m == 2 {
            B6 { n0: p0, n1: p1, n2: 0, n3: 0, n4: l.n1, n5: 0, den: l.den }
        } else {
            B6 { n0: p0, n1: p1, n2: 0, n3: 0, n4: 0, n5: l.n1, den: l.den }
        }
    } else {
        if m == 0 {
            B6 { n0: 0, n1: 0, n2: l.n0, n3: l.n1, n4: 0, n5: 0, den: l.den }
        } else if m == 1 {
            B6 { n0: 0, n1: 0, n2: 0, n3: l.n0, n4: l.n1, n5: 0, den: l.den }
        } else if m == 2 {
            B6 { n0: 0, n1: 0, n2: 0, n3: 0, n4: l.n0, n5: l.n1, den: l.den }
        } else {
            B6 { n0: 0, n1: 0, n2: l.n1, n3: 0, n4: 0, n5: l.n0, den: l.den }
        }
    }
}

/// Clamps negative weights to zero and renormalizes so the numerators sum
/// to the new denominator.
pub open spec fn spec_clamp_renorm6(b: B6) -> B6 {
    let c0 = if b.n0 < 0 { 0 } else { b.n0 };
    let c1 = if b.n1 < 0 { 0 } else { b.n1 };
    let c2 = if b.n2 < 0 { 0 } else { b.n2 };
    let c3 = if b.n3 < 0 { 0 } else { b.n3 };
    let c4 = if b.n4 < 0 { 0 } else { b.n4 };
    let c5 = if b.n5 < 0 { 0 } else { b.n5 };
    B6 { n0: c0, n1: c1, n2: c2, n3: c3, n4: c4, n5: c5, den: c0 + c1 + c2 + c3 + c4 + c5 }
}

/// The octahedron solver: four wedges, eight faces and twelve edges, all
/// precomputed from the six vertices at construction.
pub struct OctahedronProjector {
    pub vertices: Vec<Point>,
    pub wedges: Vec<TetrahedronProjector>,
    pub faces: Vec<TriangleProjector>,
    pub edges: Vec<LineProjector>,
}

// ---------------------------------------------------------------------------
// Spec mirror of the projection cascade
// ---------------------------------------------------------------------------

/// The local weights of wedge `i` at the query.
pub open spec fn wedge_bary(o: OctahedronProjector, i: int, q: V3) -> B4 {
    spec_tet_project(o.wedges@[i], q)
}

/// The local weights of face `f` at the query.
pub open spec fn face_bary(o: OctahedronProjector, f: int, q: V3) -> B3 {
    spec_tri_project(o.faces@[f], q)
}

/// What the wedge/face scan finds first, in scan order.
pub ghost enum OctaHit {
    Wedge { w: int },
    Face { f: int },
    Missed,
}

/// The scan over wedges `i..4`: a wedge that contains the query wins at
/// once; otherwise, for each pole whose weight is non-positive, the face
/// on the far side is probed and wins if the query projects cleanly onto
/// it; otherwise the scan moves on.
pub open spec fn spec_scan(o: OctahedronProjector, q: V3, i: int) -> OctaHit
    decreases 4 - i,
{
    if i < 0 || i >= 4 {
        OctaHit::Missed
    } else {
        let wb = wedge_bary(o, i, q);
        if b4_min(wb) >= 0 {
            OctaHit::Wedge { w: i }
        } else if wb.n0 <= 0 && b3_min(face_bary(o, 4 + i, q)) >= 0 {
            OctaHit::Face { f: 4 + i }
        } else if wb.n1 <= 0 && b3_min(face_bary(o, i, q)) >= 0 {
            OctaHit::Face { f: i }
        } else {
            spec_scan(o, q, i + 1)
        }
    }
}

/// Wedge `i`, probed from pole `pole`, marks edge `e` as a candidate:
/// the pole weight is non-positive, the far face rejects the query, and
/// one of the face's negative weights points at `e`.
pub open spec fn marks_edge(o: OctahedronProjector, q: V3, i: int, pole: int, e: int) -> bool {
    let wb = wedge_bary(o, i, q);
    let fidx = (1 - pole) * 4 + i;
    let fb = face_bary(o, fidx, q);
    &&& (if pole == 0 {
        wb.n0
    } else {
        wb.n1
    }) <= 0
    &&& !(b3_min(fb) >= 0)
    &&& {
        ||| (fb.n0 <= 0 && e == 8 + fidx % 4)
        ||| (fb.n1 <= 0 && e == (fidx / 4) * 4 + ((fidx % 4) + 1) % 4)
        ||| (fb.n2 <= 0 && e == (fidx / 4) * 4 + fidx % 4)
    }
}

/// Edge `e` was marked by one of the wedges before wedge `i`.
pub open spec fn edge_marked_upto(o: OctahedronProjector, q: V3, e: int, i: int) -> bool {
    exists|j: int, pole: int| 0 <= j < i && 0 <= pole < 2 && marks_edge(o, q, j, pole, e)
}

/// Edge `e` was marked during the full scan.
pub open spec fn edge_marked(o: OctahedronProjector, q: V3, e: int) -> bool {
    edge_marked_upto(o, q, e, 4)
}

/// The clamped weights of edge `e` at the query, with the squared
/// distance from the query to the reconstructed position.
pub open spec fn edge_cand(o: OctahedronProjector, e: int, q: V3) -> (B2, RatioV) {
    let line = o.edges@[e];
    let lb = spec_line_clip(line.origin@, line.direction@, q).0;
    let rp = spec_line_bary_to_point(line.origin@, line.direction@, lb);
    (lb, RatioV { num: dist_sq_num(rp, q), den: lb.den * lb.den })
}

/// The marked edge whose candidate lies nearest the query, scanning edges
/// `e..12` with the best candidate so far; an earlier edge wins ties.
pub open spec fn spec_best_edge(
    o: OctahedronProjector,
    q: V3,
    e: int,
    best: Option<(int, B2, RatioV)>,
) -> Option<(int, B2, RatioV)>
    decreases 12 - e,
{
    if e < 0 || e >= 12 {
        best
    } else {
        let next = if edge_marked(o, q, e) {
            let c = edge_cand(o, e, q);
            match best {
                Option::None => Option::Some((e, c.0, c.1)),
                Option::Some(b) => {
                    if b.2.num * c.1.den > c.1.num * b.2.den {
                        Option::Some((e, c.0, c.1))
                    } else {
                        best
                    }
                },
            }
        } else {
            best
        };
        spec_best_edge(o, q, e + 1, next)
    }
}

/// Whether wedge `a`'s smallest weight is below wedge `b`'s, as exact
/// rationals.
pub open spec fn wedge_min_lt(o: OctahedronProjector, q: V3, a: int, b: int) -> bool {
    let ba = wedge_bary(o, a, q);
    let bb = wedge_bary(o, b, q);
    b4_min(ba) * bb.den < b4_min(bb) * ba.den
}

/// The wedge whose smallest weight is largest (least negative), scanning
/// wedges `i..4` with the best wedge so far; an earlier wedge wins ties.
pub open spec fn spec_best_wedge(o: OctahedronProjector, q: V3, i: int, cur: int) -> int
    decreases 4 - i,
{
    if i < 0 || i >= 4 {
        cur
    } else {
        let nxt = if wedge_min_lt(o, q, cur, i) {
            i
        } else {
            cur
        };
        spec_best_wedge(o, q, i + 1, nxt)
    }
}

/// The full cascade: first wedge containing the query, else first face
/// taking a clean exterior projection, else the nearest marked edge,
/// else (when nothing was marked) the best wedge's weights clamped and
/// renormalized.
pub open spec fn spec_octa_project(o: OctahedronProjector, q: V3) -> B6 {
    match spec_scan(o, q, 0) {
        OctaHit::Wedge { w } => spec_wedge_l2g(w, wedge_bary(o, w, q)),
        OctaHit::Face { f } => spec_face_l2g(f, face_bary(o, f, q)),
        OctaHit::Missed => {
            let bw = spec_best_wedge(o, q, 1, 0);
            let fallback = spec_clamp_renorm6(spec_wedge_l2g(bw, wedge_bary(o, bw, q)));
            match spec_best_edge(o, q, 0, Option::None) {
                Option::Some(b) => spec_edge_l2g(b.0, b.1),
                Option::None => fallback,
            }
        },
    }
}

impl OctahedronProjector {
    /// All sub-projectors are well formed and built from the six vertices
    /// according to the wedge/face/edge index conventions.
    pub open spec fn wf(self) -> bool {
        &&& self.vertices@.len() == 6
        &&& forall|k: int| 0 <= k < 6 ==> pt_in_range(#[trigger] self.vertices@[k])
        &&& self.wedges@.len() == 4
        &&& forall|i: int|
            0 <= i < 4 ==> {
                let w = #[trigger] self.wedges@[i];
                &&& w.wf()
                &&& w.a@ == self.vertices@[0]@
                &&& w.b@ == self.vertices@[1]@
                &&& w.c@ == self.vertices@[2 + i % 4]@
                &&& w.d@ == self.vertices@[2 + (i + 1) % 4]@
            }
        &&& self.faces@.len() == 8
        &&& forall|f: int|
            0 <= f < 8 ==> {
                let t = #[trigger] self.faces@[f];
                &&& t.wf()
                &&& t.v1@ == self.vertices@[f / 4]@
                &&& t.e1@ == v3_sub(self.vertices@[2 + f % 4]@, self.vertices@[f / 4]@)
                &&& t.e2@ == v3_sub(self.vertices@[2 + (f + 1) % 4]@, self.vertices@[f / 4]@)
            }
        &&& self.edges@.len() == 12
        &&& forall|e: int|
            0 <= e < 8 ==> {
                let l = #[trigger] self.edges@[e];
                &&& l.wf()
                &&& l.origin@ == self.vertices@[e / 4]@
                &&& l.direction@ == v3_sub(self.vertices@[2 + e % 4]@, self.vertices@[e / 4]@)
            }
        &&& forall|e: int|
            8 <= e < 12 ==> {
                let l = #[trigger] self.edges@[e];
                &&& l.wf()
                &&& l.origin@ == self.vertices@[2 + e % 4]@
                &&& l.direction@ == v3_sub(
                    self.vertices@[2 + (e + 1) % 4]@,
                    self.vertices@[2 + e % 4]@,
                )
            }
    }
}

/// All four wedges and all eight faces can be built: no wedge is
/// coplanar and no face is collinear.
pub open spec fn spec_octa_ok(vs: [Point; 6]) -> bool {
    &&& spec_tet_ok(vs[0]@, vs[1]@, vs[2]@, vs[3]@)
    &&& spec_tet_ok(vs[0]@, vs[1]@, vs[3]@, vs[4]@)
    &&& spec_tet_ok(vs[0]@, vs[1]@, vs[4]@, vs[5]@)
    &&& spec_tet_ok(vs[0]@, vs[1]@, vs[5]@, vs[2]@)
    &&& !spec_tri_degenerate(vs[0]@, vs[2]@, vs[3]@)
    &&& !spec_tri_degenerate(vs[0]@, vs[3]@, vs[4]@)
    &&& !spec_tri_degenerate(vs[0]@, vs[4]@, vs[5]@)
    &&& !spec_tri_degenerate(vs[0]@, vs[5]@, vs[2]@)
    &&& !spec_tri_degenerate(vs[1]@, vs[2]@, vs[3]@)
    &&& !spec_tri_degenerate(vs[1]@, vs[3]@, vs[4]@)
    &&& !spec_tri_degenerate(vs[1]@, vs[4]@, vs[5]@)
    &&& !spec_tri_degenerate(vs[1]@, vs[5]@, vs[2]@)
}

impl OctahedronProjector {
    /// Builds the solver from six vertices: the two poles first, then the
    /// four equatorial vertices in cyclic order.  Fails exactly when some
    /// wedge or face is degenerate.
    #[verifier::rlimit(100)]
    pub fn new(vertices: [Point; 6]) -> (r: Result<OctahedronProjector, GeomError>)
        requires
            forall|k: int| 0 <= k < 6 ==> pt_in_range(vertices[k]),
        ensures
            (r is Ok) <==> spec_octa_ok(vertices),
            r matches Ok(o) ==> {
                &&& o.wf()
                &&& o.vertices@.len() == 6
                &&& forall|k: int| 0 <= k < 6 ==> o.vertices@[k] == vertices[k]
            },
            r matches Err(e) ==> e == GeomError::Degenerate,
    {
        let w0 = match TetrahedronProjector::new([vertices[0], vertices[1], vertices[2], vertices[3]]) {
            Ok(t) => t,
            Err(e) => { return Err(e); },
        };
        let w1 = match TetrahedronProjector::new([vertices[0], vertices[1], vertices[3], vertices[4]]) {
            Ok(t) => t,
            Err(e) => { return Err(e); },
        };
        let w2 = match TetrahedronProjector::new([vertices[0], vertices[1], vertices[4], vertices[5]]) {
            Ok(t) => t,
            Err(e) => { return Err(e); },
        };
        let w3 = match TetrahedronProjector::new([vertices[0], vertices[1], vertices[5], vertices[2]]) {
            Ok(t) => t,
            Err(e) => { return Err(e); },
        };
        let f0 = match TriangleProjector::new([vertices[0], vertices[2], vertices[3]]) {
            Ok(t) => t,
            Err(e) => { return Err(e); },
        };
        let f1 = match TriangleProjector::new([vertices[0], vertices[3], vertices[4]]) {
            Ok(t) => t,
            Err(e) => { return Err(e); },
        };
        let f2 = match TriangleProjector::new([vertices[0], vertices[4], vertices[5]]) {
            Ok(t) => t,
            Err(e) => { return Err(e); },
        };
        let f3 = match TriangleProjector::new([vertices[0], vertices[5], vertices[2]]) {
            Ok(t) => t,
            Err(e) => { return Err(e); },
        };
        let f4 = match TriangleProjector::new([vertices[1], vertices[2], vertices[3]]) {
            Ok(t) => t,
            Err(e) => { return Err(e); },
        };
        let f5 = match TriangleProjector::new([vertices[1], vertices[3], vertices[4]]) {
            Ok(t) => t,
            Err(e) => { return Err(e); },
        };
        let f6 = match TriangleProjector::new([vertices[1], vertices[4], vertices[5]]) {
            Ok(t) => t,
            Err(e) => { return Err(e); },
        };
        let f7 = match TriangleProjector::new([vertices[1], vertices[5], vertices[2]]) {
            Ok(t) => t,
            Err(e) => { return Err(e); },
        };
        let e0 = LineProjector::new([vertices[0], vertices[2]]);
        let e1 = LineProjector::new([vertices[0], vertices[3]]);
        let e2 = LineProjector::new([vertices[0], vertices[4]]);
        let e3 = LineProjector::new([vertices[0], vertices[5]]);
        let e4 = LineProjector::new([vertices[1], vertices[2]]);
        let e5 = LineProjector::new([vertices[1], vertices[3]]);
        let e6 = LineProjector::new([vertices[1], vertices[4]]);
        let e7 = LineProjector::new([vertices[1], vertices[5]]);
        let e8 = LineProjector::new([vertices[2], vertices[3]]);
        let e9 = LineProjector::new([vertices[3], vertices[4]]);
        let e10 = LineProjector::new([vertices[4], vertices[5]]);
        let e11 = LineProjector::new([vertices[5], vertices[2]]);
        let o = OctahedronProjector {
            vertices: vec![vertices[0], vertices[1], vertices[2], vertices[3], vertices[4], vertices[5]],
            wedges: vec![w0, w1, w2, w3],
            faces: vec![f0, f1, f2, f3, f4, f5, f6, f7],
            edges: vec![e0, e1, e2, e3, e4, e5, e6, e7, e8, e9, e10, e11],
        };
        Ok(o)
    }

    /// Closest point on the octahedron's boundary, as non-negative
    /// weights over all six vertices summing to one, with weight zero on
    /// every vertex that does not participate.
    #[verifier::rlimit(100)]
    #[verifier::loop_isolation(false)]
    pub fn project(&self, pt: &Point) -> (r: Bary6)
        requires
            self.wf(),
            pt_in_range(*pt),
        ensures
            r@ == spec_octa_project(*self, pt@),
            b6_valid(r@),
            b6_nonneg(r@),
    {
        let ghost q = pt@;
        let ghost el = 24 * mc() * mc();
        let ghost en = mc() * el + 2 * (mc() * el);
        let ghost edn = 3 * ((mc() * el + en) * (mc() * el + en));
        let ghost edd = el * el;
        proof {
            assert(el == 98304 && en == 18874368 && tet_num_bound() == 50331648
                && tet_den_bound() == 12582912 && tet_num_bound() * tet_den_bound()
                <= i128::MAX as int) by (nonlinear_arith)
                requires
                    mc() == 64,
                    el == 24 * mc() * mc(),
                    en == mc() * el + 2 * (mc() * el),
                    tet_num_bound() == 192 * (mc() * (mc() * mc())),
                    tet_den_bound() == 48 * (mc() * (mc() * mc())),
            ;
            assert(edn == 1899956092796928 && edd == 9663676416 && mc() * el + en == 25165824
                && edn * edd <= i128::MAX as int && mc() * el <= i128::MAX as int
                && el * el <= i128::MAX as int) by (nonlinear_arith)
                requires
                    mc() == 64,
                    el == 98304,
                    en == 18874368,
                    edn == 3 * ((mc() * el + en) * (mc() * el + en)),
                    edd == el * el,
            ;
        }
        let mut marks: Vec<bool> = vec![false, false, false, false, false, false, false, false,
            false, false, false, false];
        let mut best_set = false;
        let mut best_idx: usize = 0;
        let mut best_min: i128 = 0;
        let mut best_den: i128 = 1;
        for i in 0..4usize
            invariant
                self.wf(),
                pt_in_range(*pt),
                q == pt@,
                el == 24 * mc() * mc(),
                en == mc() * el + 2 * (mc() * el),
                edn == 3 * ((mc() * el + en) * (mc() * el + en)),
                edd == el * el,
                marks@.len() == 12,
                spec_scan(*self, q, 0) == spec_scan(*self, q, i as int),
                forall|e: int|
                    0 <= e < 12 ==> ((#[trigger] marks@[e]) <==> edge_marked_upto(
                        *self, q, e, i as int)),
                i > 0 ==> best_set,
                i == 0 ==> !best_set,
                best_set ==> best_idx < 4,
                best_set ==> spec_best_wedge(*self, q, i as int, best_idx as int)
                    == spec_best_wedge(*self, q, 1, 0),
                best_set ==> best_min as int == b4_min(wedge_bary(*self, best_idx as int, q))
                    && best_den as int == wedge_bary(*self, best_idx as int, q).den,
                best_set ==> -tet_num_bound() <= best_min as int <= tet_num_bound() && 0
                    < best_den as int <= tet_den_bound(),
        {
            let wb = self.wedges[i].project(pt);
            let mn = min4_bary(&wb);
            if mn >= 0 {
                return wedge_l2g(i, &wb);
            }
            if !best_set {
                best_set = true;
                best_idx = i;
                best_min = mn;
                best_den = wb.den;
            } else if frac_lt(best_min, best_den, mn, wb.den, Ghost(tet_num_bound()),
                Ghost(tet_den_bound()), Ghost(tet_num_bound()), Ghost(tet_den_bound())) {
                best_idx = i;
                best_min = mn;
                best_den = wb.den;
            }
            let ghost marks_in = marks@;
            if wb.n0 <= 0 {
                let fidx = 4 + i;
                let fb = self.faces[fidx].project(pt);
                let fmn = min3_bary(&fb);
                if fmn >= 0 {
                    return face_l2g(fidx, &fb);
                }
                if fb.n0 <= 0 {
                    marks.set(8 + (fidx % 4), true);
                }
                if fb.n1 <= 0 {
                    marks.set((fidx / 4) * 4 + ((fidx % 4) + 1) % 4, true);
                }
                if fb.n2 <= 0 {
                    marks.set((fidx / 4) * 4 + (fidx % 4), true);
                }
            }
            if wb.n1 <= 0 {
                let fidx = i;
                let fb = self.faces[fidx].project(pt);
                let fmn = min3_bary(&fb);
                if fmn >= 0 {
                    return face_l2g(fidx, &fb);
                }
                if fb.n0 <= 0 {
                    marks.set(8 + (fidx % 4), true);
                }
                if fb.n1 <= 0 {
                    marks.set((fidx / 4) * 4 + ((fidx % 4) + 1) % 4, true);
                }
                if fb.n2 <= 0 {
                    marks.set((fidx / 4) * 4 + (fidx % 4), true);
                }
            }
            proof {
                lemma_upto_step(*self, q, i as int);
                assert forall|e: int| 0 <= e < 12 implies ((#[trigger] marks@[e])
                    <==> edge_marked_upto(*self, q, e, i as int + 1)) by {
                    assert(marks_in[e] <==> edge_marked_upto(*self, q, e, i as int));
                }
            }
        }
        let mut any_marked = false;
        for e in 0..12usize
            invariant
                marks@.len() == 12,
                any_marked <==> exists|e2: int| 0 <= e2 < e && #[trigger] marks@[e2],
        {
            if marks[e] {
                any_marked = true;
            }
        }
        if !any_marked {
            proof {
                assert forall|e2: int| 0 <= e2 < 12 implies !edge_marked(*self, q, e2) by {
                    assert(!marks@[e2]);
                }
            }
            self.project_fallback(pt, best_idx)
        } else {
            let ghost w = choose|e2: int| 0 <= e2 < 12 && marks@[e2];
            proof {
                assert(edge_marked(*self, q, w));
            }
            self.project_edges(pt, &marks)
        }
    }

    /// The fallback when no edge was marked: the best wedge's weights,
    /// clamped to zero and renormalized.  With exact arithmetic the raw
    /// weights sum to a positive denominator, so the clamped sum is
    /// always positive and the renormalization never divides by zero.
    #[verifier::loop_isolation(false)]
    fn project_fallback(&self, pt: &Point, best_idx: usize) -> (r: Bary6)
        requires
            self.wf(),
            pt_in_range(*pt),
            best_idx < 4,
            spec_scan(*self, pt@, 0) == OctaHit::Missed,
            forall|e: int| 0 <= e < 12 ==> !edge_marked(*self, pt@, e),
            spec_best_wedge(*self, pt@, 1, 0) == best_idx as int,
        ensures
            r@ == spec_octa_project(*self, pt@),
            b6_valid(r@),
            b6_nonneg(r@),
    {
        let ghost q = pt@;
        proof {
            lemma_best_edge_none(*self, q, 0);
            assert(tet_num_bound() == 50331648) by (nonlinear_arith)
                requires
                    mc() == 64,
                    tet_num_bound() == 192 * (mc() * (mc() * mc())),
            ;
        }
        let wb = self.wedges[best_idx].project(pt);
        let g = wedge_l2g(best_idx, &wb);
        let c0: i128 = if g.n0 < 0 { 0 } else { g.n0 };
        let c1: i128 = if g.n1 < 0 { 0 } else { g.n1 };
        let c2: i128 = if g.n2 < 0 { 0 } else { g.n2 };
        let c3: i128 = if g.n3 < 0 { 0 } else { g.n3 };
        let c4: i128 = if g.n4 < 0 { 0 } else { g.n4 };
        let c5: i128 = if g.n5 < 0 { 0 } else { g.n5 };
        Bary6 { n0: c0, n1: c1, n2: c2, n3: c3, n4: c4, n5: c5, den: c0 + c1 + c2 + c3 + c4 + c5 }
    }

    /// Scans the marked edges and returns the candidate nearest the
    /// query; an earlier edge wins ties.
    #[verifier::rlimit(100)]
    #[verifier::loop_isolation(false)]
    fn project_edges(&self, pt: &Point, marks: &Vec<bool>) -> (r: Bary6)
        requires
            self.wf(),
            pt_in_range(*pt),
            marks@.len() == 12,
            forall|e: int| 0 <= e < 12 ==> ((#[trigger] marks@[e]) <==> edge_marked(*self, pt@, e)),
            exists|e: int| 0 <= e < 12 && edge_marked(*self, pt@, e),
            spec_scan(*self, pt@, 0) == OctaHit::Missed,
        ensures
            r@ == spec_octa_project(*self, pt@),
            b6_valid(r@),
            b6_nonneg(r@),
    {
        let ghost q = pt@;
        let ghost el = 24 * mc() * mc();
        let ghost en = mc() * el + 2 * (mc() * el);
        let ghost edn = 3 * ((mc() * el + en) * (mc() * el + en));
        let ghost edd = el * el;
        proof {
            assert(el == 98304 && en == 18874368) by (nonlinear_arith)
                requires
                    mc() == 64,
                    el == 24 * mc() * mc(),
                    en == mc() * el + 2 * (mc() * el),
            ;
            assert(edn == 1899956092796928 && edd == 9663676416 && mc() * el + en == 25165824
                && edn * edd <= i128::MAX as int && el * el <= i128::MAX as int)
                by (nonlinear_arith)
                requires
                    mc() == 64,
                    el == 98304,
                    en == 18874368,
                    edn == 3 * ((mc() * el + en) * (mc() * el + en)),
                    edd == el * el,
            ;
        }
        let mut best_e_set = false;
        let mut best_e_idx: usize = 0;
        let mut best_e_lb = Bary2 { n0: 1, n1: 0, den: 1 };
        let mut best_e_d = Ratio { num: 0, den: 1 };
        for e in 0..12usize
            invariant
                spec_best_edge(*self, q, e as int, cur_of(best_e_set, best_e_idx as int,
                    best_e_lb@, best_e_d@)) == spec_best_edge(*self, q, 0, Option::None),
                best_e_set <==> exists|e2: int| 0 <= e2 < e && edge_marked(*self, q, e2),
                best_e_set ==> best_e_idx < 12,
                best_e_set ==> best_e_lb@ == edge_cand(*self, best_e_idx as int, q).0
                    && best_e_d@ == edge_cand(*self, best_e_idx as int, q).1,
                best_e_set ==> b2_valid(best_e_lb@) && b2_nonneg(best_e_lb@),
                best_e_set ==> -edn <= best_e_d.num as int <= edn && 0 < best_e_d.den as int
                    <= edd,
        {
            if marks[e] {
                let (lb, _lc) = self.edges[e].clipping_project(pt);
                let rp = self.edges[e].bary_to_point_bd(&lb, Ghost(el), Ghost(el));
                let d = dist_sq_ratio(&rp, pt, Ghost(en), Ghost(el));
                proof {
                    assert(lb@ == edge_cand(*self, e as int, q).0);
                    assert(d@ == edge_cand(*self, e as int, q).1);
                }
                if !best_e_set {
                    best_e_set = true;
                    best_e_idx = e;
                    best_e_lb = lb;
                    best_e_d = d;
                } else if frac_lt(d.num, d.den, best_e_d.num, best_e_d.den, Ghost(edn), Ghost(edd),
                    Ghost(edn), Ghost(edd)) {
                    best_e_idx = e;
                    best_e_lb = lb;
                    best_e_d = d;
                }
            }
        }
        assert(best_e_set);
        edge_l2g(best_e_idx, &best_e_lb)
    }
}

// ---------------------------------------------------------------------------
// Laws
// ---------------------------------------------------------------------------

/// The one-hot weight vector for vertex `k`.
pub open spec fn one_hot6(k: int, den: int) -> B6 {
    if k == 0 {
        B6 { n0: den, n1: 0, n2: 0, n3: 0, n4: 0, n5: 0, den }
    } else if k == 1 {
        B6 { n0: 0, n1: den, n2: 0, n3: 0, n4: 0, n5: 0, den }
    } else if k == 2 {
        B6 { n0: 0, n1: 0, n2: den, n3: 0, n4: 0, n5: 0, den }
    } else if k == 3 {
        B6 { n0: 0, n1: 0, n2: 0, n3: den, n4: 0, n5: 0, den }
    } else if k == 4 {
        B6 { n0: 0, n1: 0, n2: 0, n3: 0, n4: den, n5: 0, den }
    } else {
        B6 { n0: 0, n1: 0, n2: 0, n3: 0, n4: 0, n5: den, den }
    }
}

/// Querying any construction vertex yields that vertex's one-hot weight
/// vector, whenever the scan settles on a wedge that has the vertex as
/// one of its corners (which wedge wins when a vertex sits on several
/// wedges' shared boundary is a matter of scan order, so the winning
/// wedge is a hypothesis here; the checked inverse identities then force
/// the one-hot answer).
pub proof fn lemma_octa_vertex_one_hot(o: OctahedronProjector, k: int, w: int)
    requires
        o.wf(),
        0 <= k < 6,
        0 <= w < 4,
        k == 0 || k == 1 || k == 2 + w % 4 || k == 2 + (w + 1) % 4,
        spec_scan(o, o.vertices@[k]@, 0) == (OctaHit::Wedge { w }),
    ensures
        spec_octa_project(o, o.vertices@[k]@) == one_hot6(k, o.wedges@[w].den as int),
{
    let q = o.vertices@[k]@;
    let wd = o.wedges@[w];
    let den = wd.den as int;
    assert(wd.wf() && wd.a@ == o.vertices@[0]@ && wd.b@ == o.vertices@[1]@ && wd.c@
        == o.vertices@[2 + w % 4]@ && wd.d@ == o.vertices@[2 + (w + 1) % 4]@);
    let wb = wedge_bary(o, w, q);
    if k == 0 {
        assert(wb == (B4 { n0: den, n1: 0, n2: 0, n3: 0, den }));
    } else if k == 1 {
        assert(wb == (B4 { n0: 0, n1: den, n2: 0, n3: 0, den }));
    } else if k == 2 + w % 4 {
        assert(wb == (B4 { n0: 0, n1: 0, n2: den, n3: 0, den }));
    } else {
        assert(wb == (B4 { n0: 0, n1: 0, n2: 0, n3: den, den }));
    }
    assert(spec_octa_project(o, q) == spec_wedge_l2g(w, wb));
    assert(spec_wedge_l2g(w, wb) == one_hot6(k, den));
}

/// Querying a vertex of the first wedge (the two poles and the first two
/// equatorial vertices) yields the one-hot weight vector for that vertex:
/// the first wedge already reports the vertex as one of its own corners.
pub proof fn lemma_octa_wedge_vertices_one_hot(o: OctahedronProjector)
    requires
        o.wf(),
    ensures
        ({
            let den = o.wedges@[0].den as int;
            &&& spec_octa_project(o, o.vertices@[0]@) == (B6 {
                n0: den, n1: 0, n2: 0, n3: 0, n4: 0, n5: 0, den,
            })
            &&& spec_octa_project(o, o.vertices@[1]@) == (B6 {
                n0: 0, n1: den, n2: 0, n3: 0, n4: 0, n5: 0, den,
            })
            &&& spec_octa_project(o, o.vertices@[2]@) == (B6 {
                n0: 0, n1: 0, n2: den, n3: 0, n4: 0, n5: 0, den,
            })
            &&& spec_octa_project(o, o.vertices@[3]@) == (B6 {
                n0: 0, n1: 0, n2: 0, n3: den, n4: 0, n5: 0, den,
            })
        }),
{
    let w = o.wedges@[0];
    assert(w.wf() && w.a@ == o.vertices@[0]@ && w.b@ == o.vertices@[1]@ && w.c@
        == o.vertices@[2]@ && w.d@ == o.vertices@[3]@);
    assert(spec_scan(o, o.vertices@[0]@, 0) == (OctaHit::Wedge { w: 0 }));
    assert(spec_scan(o, o.vertices@[1]@, 0) == (OctaHit::Wedge { w: 0 }));
    assert(spec_scan(o, o.vertices@[2]@, 0) == (OctaHit::Wedge { w: 0 }));
    assert(spec_scan(o, o.vertices@[3]@, 0) == (OctaHit::Wedge { w: 0 }));
}

/// The weights of a relabeled octahedron (equatorial ring rotated by one)
/// carried back to the original labels: poles stay, each equatorial slot
/// moves one step along the ring.
pub open spec fn rot_equator(b: B6) -> B6 {
    B6 { n0: b.n0, n1: b.n1, n2: b.n5, n3: b.n2, n4: b.n3, n5: b.n4, den: b.den }
}

/// Wedge placement commutes with relabeling the equatorial ring: wedge
/// `j` of the rotated octahedron is wedge `(j + 1) % 4` of the original,
/// and its placed weights map back slot for slot.
pub proof fn lemma_wedge_l2g_rotation(j: int, l: B4)
    requires
        0 <= j < 4,
    ensures
        rot_equator(spec_wedge_l2g(j, l)) == spec_wedge_l2g((j + 1) % 4, l),
{
}

/// Face placement commutes with relabeling the equatorial ring.
pub proof fn lemma_face_l2g_rotation(f: int, l: B3)
    requires
        0 <= f < 8,
    ensures
        rot_equator(spec_face_l2g(f, l)) == spec_face_l2g((f / 4) * 4 + ((f % 4) + 1) % 4, l),
{
}

/// Edge placement commutes with relabeling the equatorial ring.
pub proof fn lemma_edge_l2g_rotation(e: int, l: B2)
    requires
        0 <= e < 12,
    ensures
        rot_equator(spec_edge_l2g(e, l)) == spec_edge_l2g(
            if e < 8 {
                (e / 4) * 4 + ((e % 4) + 1) % 4
            } else {
                8 + ((e % 4) + 1) % 4
            },
            l,
        ),
{
}

/// The best-so-far mirror of the edge scan's running state.
pub open spec fn cur_of(set: bool, idx: int, lb: B2, d: RatioV) -> Option<(int, B2, RatioV)> {
    if set {
        Option::Some((idx, lb, d))
    } else {
        Option::None
    }
}

/// Splitting the marking scan at wedge `i`.
proof fn lemma_upto_step(o: OctahedronProjector, q: V3, i: int)
    requires
        i >= 0,
    ensures
        forall|e: int|
            edge_marked_upto(o, q, e, i + 1) <==> (edge_marked_upto(o, q, e, i) || marks_edge(
                o, q, i, 0, e) || marks_edge(o, q, i, 1, e)),
{
    assert forall|e: int|
        edge_marked_upto(o, q, e, i + 1) <==> (edge_marked_upto(o, q, e, i) || marks_edge(
            o, q, i, 0, e) || marks_edge(o, q, i, 1, e)) by {
        if edge_marked_upto(o, q, e, i + 1) {
            let (j, pole): (int, int) = choose|j: int, pole: int|
                0 <= j < i + 1 && 0 <= pole < 2 && marks_edge(o, q, j, pole, e);
            if j < i {
                assert(edge_marked_upto(o, q, e, i));
            } else {
                assert(marks_edge(o, q, i, pole, e));
                if pole == 0 {
                    assert(marks_edge(o, q, i, 0, e));
                } else {
                    assert(marks_edge(o, q, i, 1, e));
                }
            }
        }
        if edge_marked_upto(o, q, e, i) {
            let (j, pole): (int, int) = choose|j: int, pole: int|
                0 <= j < i && 0 <= pole < 2 && marks_edge(o, q, j, pole, e);
            assert(0 <= j < i + 1 && 0 <= pole < 2 && marks_edge(o, q, j, pole, e));
        }
        if marks_edge(o, q, i, 0, e) {
            assert(0 <= i < i + 1 && 0 <= 0 < 2 && marks_edge(o, q, i, 0, e));
        }
        if marks_edge(o, q, i, 1, e) {
            assert(0 <= i < i + 1 && 0 <= 1 < 2 && marks_edge(o, q, i, 1, e));
        }
    }
}

/// With nothing marked, the edge scan finds no candidate.
proof fn lemma_best_edge_none(o: OctahedronProjector, q: V3, e: int)
    requires
        forall|e2: int| 0 <= e2 < 12 ==> !edge_marked(o, q, e2),
    ensures
        spec_best_edge(o, q, e, Option::None) == Option::<(int, B2, RatioV)>::None,
    decreases 12 - e,
{
    if 0 <= e < 12 {
        lemma_best_edge_none(o, q, e + 1);
    } else if e >= 12 {
    } else {
        lemma_best_edge_none(o, q, e + 1);
    }
}

/// The smallest of the four wedge weights.
fn min4_bary(b: &Bary4) -> (r: i128)
    ensures
        r as int == b4_min(b@),
{
    let m01 = if b.n0 <= b.n1 { b.n0 } else { b.n1 };
    let m012 = if m01 <= b.n2 { m01 } else { b.n2 };
    if m012 <= b.n3 { m012 } else { b.n3 }
}

/// The smallest of the three face weights.
fn min3_bary(b: &Bary3) -> (r: i128)
    ensures
        r as int == b3_min(b@),
{
    let m01 = if b.n0 <= b.n1 { b.n0 } else { b.n1 };
    if m01 <= b.n2 { m01 } else { b.n2 }
}

/// Places wedge weights into the global six slots.
fn wedge_l2g(index: usize, l: &Bary4) -> (r: Bary6)
    requires
        index < 4,
    ensures
        r@ == spec_wedge_l2g(index as int, l@),
        b4_valid(l@) ==> b6_valid(r@),
        b4_min(l@) >= 0 ==> b6_nonneg(r@),
{
    if index == 0 {
        Bary6 { n0: l.n0, n1: l.n1, n2: l.n2, n3: l.n3, n4: 0, n5: 0, den: l.den }
    } else if index == 1 {
        Bary6 { n0: l.n0, n1: l.n1, n2: 0, n3: l.n2, n4: l.n3, n5: 0, den: l.den }
    } else if index == 2 {
        Bary6 { n0: l.n0, n1: l.n1, n2: 0, n3: 0, n4: l.n2, n5: l.n3, den: l.den }
    } else {
        Bary6 { n0: l.n0, n1: l.n1, n2: l.n3, n3: 0, n4: 0, n5: l.n2, den: l.den }
    }
}

/// Places face weights into the global six slots.
fn face_l2g(index: usize, l: &Bary3) -> (r: Bary6)
    requires
        index < 8,
    ensures
        r@ == spec_face_l2g(index as int, l@),
        b3_valid(l@) ==> b6_valid(r@),
        b3_min(l@) >= 0 ==> b6_nonneg(r@),
{
    let m = index % 4;
    let p0: i128 = if index < 4 { l.n0 } else { 0 };
    let p1: i128 = if index < 4 { 0 } else { l.n0 };
    if m == 0 {
        Bary6 { n0: p0, n1: p1, n2: l.n1, n3: l.n2, n4: 0, n5: 0, den: l.den }
    } else if m == 1 {
        Bary6 { n0: p0, n1: p1, n2: 0, n3: l.n1, n4: l.n2, n5: 0, den: l.den }
    } else if m == 2 {
        Bary6 { n0: p0, n1: p1, n2: 0, n3: 0, n4: l.n1, n5: l.n2, den: l.den }
    } else {
        Bary6 { n0: p0, n1: p1, n2: l.n2, n3: 0, n4: 0, n5: l.n1, den: l.den }
    }
}

/// Places edge weights into the global six slots.
fn edge_l2g(index: usize, l: &Bary2) -> (r: Bary6)
    requires
        index < 12,
    ensures
        r@ == spec_edge_l2g(index as int, l@),
        b2_valid(l@) ==> b6_valid(r@),
        b2_nonneg(l@) ==> b6_nonneg(r@),
{
    let m = index % 4;
    if index < 8 {
        let p0: i128 = if index < 4 { l.n0 } else { 0 };
        let p1: i128 = if index < 4 { 0 } else { l.n0 };
        if m == 0 {
            Bary6 { n0: p0, n1: p1, n2: l.n1, n3: 0, n4: 0, n5: 0, den: l.den }
        } else if m == 1 {
            Bary6 { n0: p0, n1: p1, n2: 0, n3: l.n1, n4: 0, n5: 0, den: l.den }
        } else if m == 2 {
            Bary6 { n0: p0, n1: p1, n2: 0, n3: 0, n4: l.n1, n5: 0, den: l.den }
        } else {
            Bary6 { n0: p0, n1: p1, n2: 0, n3: 0, n4: 0, n5: l.n1, den: l.den }
        }
    } else {
        if m == 0 {
            Bary6 { n0: 0, n1: 0, n2: l.n0, n3: l.n1, n4: 0, n5: 0, den: l.den }
        } else if m == 1 {
            Bary6 { n0: 0, n1: 0, n2: 0, n3: l.n0, n4: l.n1, n5: 0, den: l.den }
        } else if m == 2 {
            Bary6 { n0: 0, n1: 0, n2: 0, n3: 0, n4: l.n0, n5: l.n1, den: l.den }
        } else {
            Bary6 { n0: 0, n1: 0, n2: l.n1, n3: 0, n4: 0, n5: l.n0, den: l.den }
        }
    }
}

} // verus!
