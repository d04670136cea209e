//! Projection onto the plane of a triangle, and the clipped variant that
//! returns the closest point within the triangle.

use vstd::prelude::*;

use vstd::arithmetic::mul::{lemma_mul_is_distributive_sub, lemma_mul_is_distributive_sub_other_way};

use crate::barycentric::geom::{
    mc, pt_in_range, v3_bounded, v3_sub, v3_scale, v3_add, dot, cross, mul_bd, dot3, cross3, sub3,
    pt_c3, frac_lt, dist_sq_ratio, dist_sq_num, rp_nums, rp_bounded, lemma_dot_add_left,
    lemma_dot_scale_left, lemma_dot_scale_right, lemma_dot_sub_right, lemma_dot_comm,
    lemma_cross_add_left, lemma_cross_scale_left, lemma_cross_add_right, lemma_cross_scale_right,
    lemma_cross_sub_right, lemma_cross_antisym, lemma_cross_self, lemma_dot_self_nonneg,
    lemma_scalar_triple_cyclic, lemma_triple_product, C3, GeomError, Point,
    RatPoint, Ratio, RatioV, RP3, V3,
};
use crate::barycentric::line::{spec_line_clip, B2, LineProjector, BARY_LIMIT};

verus! {

/// Barycentric weights over the triangle's three vertices, as numerators
/// over a shared positive denominator.
#[derive(Clone, Copy)]
pub struct Bary3 {
    pub n0: i128,
    pub n1: i128,
    pub n2: i128,
    pub den: i128,
}

/// Spec-level mirror of `Bary3`.
pub ghost struct B3 {
    pub n0: int,
    pub n1: int,
    pub n2: int,
    pub den: int,
}

impl View for Bary3 {
    type V = B3;

    open spec fn view(&self) -> B3 {
        B3 {
            n0: self.n0 as int,
            n1: self.n1 as int,
            n2: self.n2 as int,
            den: self.den as int,
        }
    }
}

/// The weights form an affine combination: positive denominator and
/// numerators summing to it (so the weights sum to one).
pub open spec fn b3_valid(b: B3) -> bool {
    &&& b.den > 0
    &&& b.n0 + b.n1 + b.n2 == b.den
}

pub open spec fn b3_nonneg(b: B3) -> bool {
    b.n0 >= 0 && b.n1 >= 0 && b.n2 >= 0
}

pub open spec fn b3_bounded(b: B3, mn: int, md: int) -> bool {
    &&& -mn <= b.n0 <= mn
    &&& -mn <= b.n1 <= mn
    &&& -mn <= b.n2 <= mn
    &&& 0 < b.den <= md
}

/// Two weight vectors denote the same triple of rationals.
pub open spec fn b3_equiv(a: B3, b: B3) -> bool {
    &&& a.den > 0
    &&& b.den > 0
    &&& a.n0 * b.den == b.n0 * a.den
    &&& a.n1 * b.den == b.n1 * a.den
    &&& a.n2 * b.den == b.n2 * a.den
}

/// Largest numerator magnitude a raw triangle projection can produce.
pub open spec fn tri_num_bound() -> int {
    576 * (mc() * (mc() * (mc() * mc())))
}

/// Largest denominator a raw triangle projection can produce.
pub open spec fn tri_den_bound() -> int {
    192 * (mc() * (mc() * (mc() * mc())))
}

/// The triangle with vertices `a`, `b`, `c` is degenerate: its edge
/// vectors are collinear, so the normal vanishes.
pub open spec fn spec_tri_degenerate(a: V3, b: V3, c: V3) -> bool {
    let n = cross(v3_sub(b, a), v3_sub(c, a));
    dot(n, n) == 0
}

/// Projects points onto the plane of a triangle, reporting unclamped
/// barycentric weights over the three vertices.
pub struct TriangleProjector {
    pub v1: C3,
    pub e1: C3,
    pub e2: C3,
    pub normal: C3,
    pub den: i128,
}

/// Weights of the integer point `q` in the triangle's affine frame:
/// `q - v1 = u * e1 + v * e2 + t * normal`, reported as `(w, u, v)` with
/// `w = 1 - u - v`, all over the denominator `|normal|^2`.
pub open spec fn spec_tri_project(t: TriangleProjector, q: V3) -> B3 {
    let n = cross(t.e1@, t.e2@);
    let den = dot(n, n);
    let opt = v3_sub(q, t.v1@);
    let u = dot(cross(opt, t.e2@), n);
    let v = dot(cross(t.e1@, opt), n);
    B3 { n0: den - u - v, n1: u, n2: v, den }
}

/// The same projection for a query with rational coordinates.
pub open spec fn spec_tri_project_rat(t: TriangleProjector, rp: RP3) -> B3 {
    let n = cross(t.e1@, t.e2@);
    let den = dot(n, n);
    let optn = v3_sub(rp_nums(rp), v3_scale(rp.den, t.v1@));
    let u = dot(cross(optn, t.e2@), n);
    let v = dot(cross(t.e1@, optn), n);
    B3 { n0: den * rp.den - u - v, n1: u, n2: v, den: den * rp.den }
}

impl TriangleProjector {
    /// The projector's precomputed state is consistent, bounded, and
    /// non-degenerate.
    pub open spec fn wf(self) -> bool {
        &&& v3_bounded(self.v1@, mc())
        &&& v3_bounded(self.e1@, 2 * mc())
        &&& v3_bounded(self.e2@, 2 * mc())
        &&& self.normal@ == cross(self.e1@, self.e2@)
        &&& v3_bounded(self.normal@, 8 * (mc() * mc()))
        &&& self.den as int == dot(self.normal@, self.normal@)
        &&& 0 < self.den as int <= tri_den_bound()
    }

    /// Builds the projector for the plane through the three vertices.
    /// Fails exactly when the vertices are collinear (degenerate
    /// geometry), instead of dividing by a zero normal.
    pub fn new(vertices: [Point; 3]) -> (r: Result<TriangleProjector, GeomError>)
        requires
            pt_in_range(vertices[0]),
            pt_in_range(vertices[1]),
            pt_in_range(vertices[2]),
        ensures
            (r is Ok) <==> !spec_tri_degenerate(vertices[0]@, vertices[1]@, vertices[2]@),
            r matches Ok(t) ==> {
                &&& t.wf()
                &&& t.v1@ == vertices[0]@
                &&& t.e1@ == v3_sub(vertices[1]@, vertices[0]@)
                &&& t.e2@ == v3_sub(vertices[2]@, vertices[0]@)
            },
            r matches Err(e) ==> e == GeomError::Degenerate,
    {
        let v1 = pt_c3(&vertices[0]);
        let v2 = pt_c3(&vertices[1]);
        let v3c = pt_c3(&vertices[2]);
        let e1 = sub3(&v2, &v1, Ghost(mc()), Ghost(mc()));
        let e2 = sub3(&v3c, &v1, Ghost(mc()), Ghost(mc()));
        let normal = cross3(&e1, &e2, Ghost(2 * mc()), Ghost(2 * mc()));
        let den = dot3(&normal, &normal, Ghost(8 * (mc() * mc())), Ghost(8 * (mc() * mc())));
        proof {
            lemma_dot_self_nonneg(normal@);
        }
        if den == 0 {
            Err(GeomError::Degenerate)
        } else {
            Ok(TriangleProjector { v1, e1, e2, normal, den })
        }
    }

    /// Unclamped barycentric weights of `pt`; an exact affine map valid
    /// for points off the plane too, so the weights always sum to one.
    pub fn project(&self, pt: &Point) -> (r: Bary3)
        requires
            self.wf(),
            pt_in_range(*pt),
        ensures
            r@ == spec_tri_project(*self, pt@),
            b3_valid(r@),
            b3_bounded(r@, tri_num_bound(), tri_den_bound()),
    {
        let q = pt_c3(pt);
        let opt = sub3(&q, &self.v1, Ghost(mc()), Ghost(mc()));
        let cu = cross3(&opt, &self.e2, Ghost(2 * mc()), Ghost(2 * mc()));
        let u = dot3(&cu, &self.normal, Ghost(8 * (mc() * mc())), Ghost(8 * (mc() * mc())));
        let cv = cross3(&self.e1, &opt, Ghost(2 * mc()), Ghost(2 * mc()));
        let v = dot3(&cv, &self.normal, Ghost(8 * (mc() * mc())), Ghost(8 * (mc() * mc())));
        Bary3 { n0: self.den - u - v, n1: u, n2: v, den: self.den }
    }
}

/// Ratio option, viewed at the spec level.
pub open spec fn opt_ratio_view(o: Option<Ratio>) -> Option<RatioV> {
    match o {
        Some(x) => Some(x@),
        None => None,
    }
}

/// Clamps negative weights to zero and renormalizes so the numerators sum
/// to the new denominator.
pub open spec fn spec_clamp_renorm3(raw: B3) -> B3 {
    let c0 = if raw.n0 < 0 { 0 } else { raw.n0 };
    let c1 = if raw.n1 < 0 { 0 } else { raw.n1 };
    let c2 = if raw.n2 < 0 { 0 } else { raw.n2 };
    B3 { n0: c0, n1: c1, n2: c2, den: c0 + c1 + c2 }
}

/// Embeds the weights of edge `index` (the edge opposite vertex `index`,
/// from vertex `(index+1)%3` to vertex `(index+2)%3`) into triangle
/// weights, placing zero on the opposite vertex.
pub open spec fn spec_embed_line(index: int, lb: B2) -> B3 {
    if index == 0 {
        B3 { n0: 0, n1: lb.n0, n2: lb.n1, den: lb.den }
    } else if index == 1 {
        B3 { n0: lb.n1, n1: 0, n2: lb.n0, den: lb.den }
    } else {
        B3 { n0: lb.n0, n1: lb.n1, n2: 0, den: lb.den }
    }
}

/// Reconstructed position of triangle weights: the weighted combination
/// of the three vertices.
pub open spec fn spec_tri_bary_to_point(va: V3, vb: V3, vc: V3, b: B3) -> RP3 {
    RP3 {
        xn: va.x * b.n0 + vb.x * b.n1 + vc.x * b.n2,
        yn: va.y * b.n0 + vb.y * b.n1 + vc.y * b.n2,
        zn: va.z * b.n0 + vb.z * b.n1 + vc.z * b.n2,
        den: b.den,
    }
}

/// Wraps a `TriangleProjector` together with the three edge segments so
/// that projections can be clamped to the triangle.
pub struct ClippingTriangleProjector {
    pub va: C3,
    pub vb: C3,
    pub vc: C3,
    pub line0: LineProjector,
    pub line1: LineProjector,
    pub line2: LineProjector,
    pub tri: TriangleProjector,
}

/// Squared distance between the reconstructed position of `b` and the
/// integer query `q`, as an exact ratio.
pub open spec fn spec_cand_dist(p: ClippingTriangleProjector, b: B3, q: V3) -> RatioV {
    let rp = spec_tri_bary_to_point(p.va@, p.vb@, p.vc@, b);
    RatioV { num: dist_sq_num(rp, q), den: b.den * b.den }
}

/// The edge projector for index `index`.
pub open spec fn spec_edge_line(p: ClippingTriangleProjector, index: int) -> LineProjector {
    if index == 0 {
        p.line0
    } else if index == 1 {
        p.line1
    } else {
        p.line2
    }
}

/// One raw weight of `raw`, selected by index.
pub open spec fn b3_comp(raw: B3, index: int) -> int {
    if index == 0 {
        raw.n0
    } else if index == 1 {
        raw.n1
    } else {
        raw.n2
    }
}

/// The edge-candidate scan of the clipping projection, from edge `index`
/// on, with the best candidate so far.  An edge is examined only when the
/// corresponding raw weight is negative; a projection that lands cleanly
/// between the edge's endpoints is returned at once, otherwise the
/// endpoint candidate competes on squared distance.
pub open spec fn spec_clip_from(
    p: ClippingTriangleProjector,
    q: V3,
    raw: B3,
    best: B3,
    bestd: RatioV,
    index: int,
) -> (B3, bool, Option<RatioV>)
    decreases 3 - index,
{
    if index < 0 || index >= 3 {
        (best, true, Some(bestd))
    } else {
        if b3_comp(raw, index) < 0 {
            let line = spec_edge_line(p, index);
            let lc = spec_line_clip(line.origin@, line.direction@, q);
            let cand = spec_embed_line(index, lc.0);
            if !lc.1 {
                (cand, true, None)
            } else {
                let cd = spec_cand_dist(p, cand, q);
                if cd.num * bestd.den < bestd.num * cd.den {
                    spec_clip_from(p, q, raw, cand, cd, index + 1)
                } else {
                    spec_clip_from(p, q, raw, best, bestd, index + 1)
                }
            }
        } else {
            spec_clip_from(p, q, raw, best, bestd, index + 1)
        }
    }
}

/// The full clipping projection: the raw projection when it is already
/// inside the triangle, otherwise the edge scan seeded with the clamped
/// and renormalized raw weights.
pub open spec fn spec_clip_project(p: ClippingTriangleProjector, q: V3) -> (B3, bool, Option<
    RatioV,
>) {
    let raw = spec_tri_project(p.tri, q);
    if raw.n0 >= 0 && raw.n1 >= 0 && raw.n2 >= 0 {
        (raw, false, None)
    } else {
        let base = spec_clamp_renorm3(raw);
        let based = spec_cand_dist(p, base, q);
        spec_clip_from(p, q, raw, base, based, 0)
    }
}

impl ClippingTriangleProjector {
    /// The wrapped projectors are consistent with the three vertices.
    pub open spec fn wf(self) -> bool {
        &&& self.tri.wf()
        &&& v3_bounded(self.va@, mc())
        &&& v3_bounded(self.vb@, mc())
        &&& v3_bounded(self.vc@, mc())
        &&& self.tri.v1@ == self.va@
        &&& self.tri.e1@ == v3_sub(self.vb@, self.va@)
        &&& self.tri.e2@ == v3_sub(self.vc@, self.va@)
        &&& self.line0.wf()
        &&& self.line0.origin@ == self.vb@
        &&& self.line0.direction@ == v3_sub(self.vc@, self.vb@)
        &&& self.line1.wf()
        &&& self.line1.origin@ == self.vc@
        &&& self.line1.direction@ == v3_sub(self.va@, self.vc@)
        &&& self.line2.wf()
        &&& self.line2.origin@ == self.va@
        &&& self.line2.direction@ == v3_sub(self.vb@, self.va@)
    }

    /// Builds the clipping projector; fails exactly when the three
    /// vertices are collinear.
    pub fn new(vertices: [Point; 3]) -> (r: Result<ClippingTriangleProjector, GeomError>)
        requires
            pt_in_range(vertices[0]),
            pt_in_range(vertices[1]),
            pt_in_range(vertices[2]),
        ensures
            (r is Ok) <==> !spec_tri_degenerate(vertices[0]@, vertices[1]@, vertices[2]@),
            r matches Ok(p) ==> {
                &&& p.wf()
                &&& p.va@ == vertices[0]@
                &&& p.vb@ == vertices[1]@
                &&& p.vc@ == vertices[2]@
            },
            r matches Err(e) ==> e == GeomError::Degenerate,
    {
        let tri = match TriangleProjector::new(vertices) {
            Ok(t) => t,
            Err(e) => {
                return Err(e);
            },
        };
        let line0 = LineProjector::new([vertices[1], vertices[2]]);
        let line1 = LineProjector::new([vertices[2], vertices[0]]);
        let line2 = LineProjector::new([vertices[0], vertices[1]]);
        Ok(
            ClippingTriangleProjector {
                va: pt_c3(&vertices[0]),
                vb: pt_c3(&vertices[1]),
                vc: pt_c3(&vertices[2]),
                line0,
                line1,
                line2,
                tri,
            },
        )
    }

    /// Unclamped barycentric weights of `pt` (delegates to the plane
    /// projector).
    pub fn project(&self, pt: &Point) -> (r: Bary3)
        requires
            self.wf(),
            pt_in_range(*pt),
        ensures
            r@ == spec_tri_project(self.tri, pt@),
            b3_valid(r@),
            b3_bounded(r@, tri_num_bound(), tri_den_bound()),
    {
        self.tri.project(pt)
    }

    /// Reconstructs the position that the weights denote: the weighted
    /// combination of the three vertices.
    pub fn bary_to_point(&self, b: &Bary3) -> (r: RatPoint)
        requires
            self.wf(),
            0 < b.den <= BARY_LIMIT,
            -BARY_LIMIT <= b.n0 <= BARY_LIMIT,
            -BARY_LIMIT <= b.n1 <= BARY_LIMIT,
            -BARY_LIMIT <= b.n2 <= BARY_LIMIT,
        ensures
            r@ == spec_tri_bary_to_point(self.va@, self.vb@, self.vc@, b@),
            r@.den == b@.den,
    {
        self.bary_to_point_bd(b, Ghost(BARY_LIMIT as int), Ghost(BARY_LIMIT as int))
    }

    /// `bary_to_point` with caller-supplied magnitude bounds.
    pub(crate) fn bary_to_point_bd(
        &self,
        b: &Bary3,
        Ghost(mn): Ghost<int>,
        Ghost(md): Ghost<int>,
    ) -> (r: RatPoint)
        requires
            self.wf(),
            b3_bounded(b@, mn, md),
            3 * (mc() * mn) <= i128::MAX as int,
        ensures
            r@ == spec_tri_bary_to_point(self.va@, self.vb@, self.vc@, b@),
            r@.den == b@.den,
            rp_bounded(r@, 3 * (mc() * mn), md),
    {
        proof {
            assert(mc() * mn >= 0) by (nonlinear_arith)
                requires
                    -mn <= b@.n0 <= mn,
                    mc() == 64,
            ;
        }
        let xn = mul_bd(self.va.x, b.n0, Ghost(mc()), Ghost(mn)) + mul_bd(
            self.vb.x,
            b.n1,
            Ghost(mc()),
            Ghost(mn),
        ) + mul_bd(self.vc.x, b.n2, Ghost(mc()), Ghost(mn));
        let yn = mul_bd(self.va.y, b.n0, Ghost(mc()), Ghost(mn)) + mul_bd(
            self.vb.y,
            b.n1,
            Ghost(mc()),
            Ghost(mn),
        ) + mul_bd(self.vc.y, b.n2, Ghost(mc()), Ghost(mn));
        let zn = mul_bd(self.va.z, b.n0, Ghost(mc()), Ghost(mn)) + mul_bd(
            self.vb.z,
            b.n1,
            Ghost(mc()),
            Ghost(mn),
        ) + mul_bd(self.vc.z, b.n2, Ghost(mc()), Ghost(mn));
        RatPoint { xn, yn, zn, den: b.den }
    }

    /// Closest point within the triangle.  Returns the (non-negative,
    /// summing to one) weights, whether clamping was needed, and the
    /// squared distance when several endpoint candidates were compared.
    pub fn clipping_project(&self, pt: &Point) -> (r: (Bary3, bool, Option<Ratio>))
        requires
            self.wf(),
            pt_in_range(*pt),
        ensures
            r.0@ == spec_clip_project(*self, pt@).0,
            r.1 == spec_clip_project(*self, pt@).1,
            opt_ratio_view(r.2) == spec_clip_project(*self, pt@).2,
            b3_valid(r.0@),
            b3_nonneg(r.0@),
    {
        let ghost q = pt@;
        let raw = self.tri.project(pt);
        if raw.n0 >= 0 && raw.n1 >= 0 && raw.n2 >= 0 {
            return (raw, false, None);
        }
        // Baseline candidate: clamp negative weights and renormalize.  The
        // raw weights sum to a positive denominator, so at least one is
        // positive and the clamped sum can never be zero.
        let c0 = if raw.n0 < 0 { 0 } else { raw.n0 };
        let c1 = if raw.n1 < 0 { 0 } else { raw.n1 };
        let c2 = if raw.n2 < 0 { 0 } else { raw.n2 };
        let mut best = Bary3 { n0: c0, n1: c1, n2: c2, den: c0 + c1 + c2 };
        // Magnitude bounds for the two kinds of distance ratios that are
        // compared below, pinned to their literal values so that the
        // overflow preconditions reduce to linear facts.
        let ghost tn = tri_num_bound();
        let ghost td = 3 * tri_num_bound();
        let ghost bmn = 3 * (mc() * tn);
        let ghost bdn = 3 * ((mc() * td + bmn) * (mc() * td + bmn));
        let ghost bdd = td * td;
        let ghost lm = 24 * mc() * mc();
        let ghost cmn = 3 * (mc() * lm);
        let ghost cdn = 3 * ((mc() * lm + cmn) * (mc() * lm + cmn));
        let ghost cdd = lm * lm;
        proof {
            assert(tn == 9663676416 && td == 28991029248 && bmn == 1855425871872 && lm == 98304
                && cmn == 18874368) by (nonlinear_arith)
                requires
                    mc() == 64,
                    tn == 576 * (mc() * (mc() * (mc() * mc()))),
                    td == 3 * tn,
                    bmn == 3 * (mc() * tn),
                    lm == 24 * mc() * mc(),
                    cmn == 3 * (mc() * lm),
            ;
            assert(bdn == 41311261992143656329412608 && bdd == 840479776858391445504
                && cdn == 1899956092796928 && cdd == 9663676416 && mc() * td + bmn
                == 3710851743744 && mc() * lm + cmn == 25165824 && cdn * bdd
                <= i128::MAX as int && bdn * cdd <= i128::MAX as int) by (nonlinear_arith)
                requires
                    mc() == 64,
                    tn == 9663676416,
                    td == 28991029248,
                    bmn == 1855425871872,
                    lm == 98304,
                    cmn == 18874368,
                    bdn == 3 * ((mc() * td + bmn) * (mc() * td + bmn)),
                    bdd == td * td,
                    cdn == 3 * ((mc() * lm + cmn) * (mc() * lm + cmn)),
                    cdd == lm * lm,
            ;
        }
        assert(best@.den > 0);
        let brp = self.bary_to_point_bd(&best, Ghost(tn), Ghost(td));
        let mut bestd = dist_sq_ratio(&brp, pt, Ghost(bmn), Ghost(td));
        let ghost base = best@;
        let ghost based = bestd@;
        assert(base == spec_clamp_renorm3(raw@));
        assert(based == spec_cand_dist(*self, base, q));
        // Edge 0.
        if raw.n0 < 0 {
            let (lb, lclip) = self.line0.clipping_project(pt);
            let cand = Bary3 { n0: 0, n1: lb.n0, n2: lb.n1, den: lb.den };
            assert(cand@ == spec_embed_line(0, lb@));
            if !lclip {
                return (cand, true, None);
            }
            let crp = self.bary_to_point_bd(&cand, Ghost(lm), Ghost(lm));
            let cd = dist_sq_ratio(&crp, pt, Ghost(cmn), Ghost(lm));
            assert(cd@ == spec_cand_dist(*self, cand@, q));
            if frac_lt(cd.num, cd.den, bestd.num, bestd.den, Ghost(cdn), Ghost(cdd), Ghost(bdn),
                Ghost(bdd)) {
                best = cand;
                bestd = cd;
            }
        }
        assert(spec_clip_from(*self, q, raw@, base, based, 0) == spec_clip_from(
            *self, q, raw@, best@, bestd@, 1));
        // Edge 1.
        if raw.n1 < 0 {
            let (lb, lclip) = self.line1.clipping_project(pt);
            let cand = Bary3 { n0: lb.n1, n1: 0, n2: lb.n0, den: lb.den };
            assert(cand@ == spec_embed_line(1, lb@));
            if !lclip {
                return (cand, true, None);
            }
            let crp = self.bary_to_point_bd(&cand, Ghost(lm), Ghost(lm));
            let cd = dist_sq_ratio(&crp, pt, Ghost(cmn), Ghost(lm));
            assert(cd@ == spec_cand_dist(*self, cand@, q));
            if frac_lt(cd.num, cd.den, bestd.num, bestd.den, Ghost(cdn), Ghost(cdd), Ghost(bdn),
                Ghost(bdd)) {
                best = cand;
                bestd = cd;
            }
        }
        assert(spec_clip_from(*self, q, raw@, base, based, 0) == spec_clip_from(
            *self, q, raw@, best@, bestd@, 2));
        // Edge 2.
        if raw.n2 < 0 {
            let (lb, lclip) = self.line2.clipping_project(pt);
            let cand = Bary3 { n0: lb.n0, n1: lb.n1, n2: 0, den: lb.den };
            assert(cand@ == spec_embed_line(2, lb@));
            if !lclip {
                return (cand, true, None);
            }
            let crp = self.bary_to_point_bd(&cand, Ghost(lm), Ghost(lm));
            let cd = dist_sq_ratio(&crp, pt, Ghost(cmn), Ghost(lm));
            assert(cd@ == spec_cand_dist(*self, cand@, q));
            if frac_lt(cd.num, cd.den, bestd.num, bestd.den, Ghost(cdn), Ghost(cdd), Ghost(bdn),
                Ghost(bdd)) {
                best = cand;
                bestd = cd;
            }
        }
        assert(spec_clip_from(*self, q, raw@, base, based, 0) == spec_clip_from(
            *self, q, raw@, best@, bestd@, 3));
        (best, true, Some(bestd))
    }
}

// ---------------------------------------------------------------------------
// Laws
// ---------------------------------------------------------------------------

/// One coordinate of recombining the Gram-reduced weights with the edge
/// vectors.
proof fn lemma_core_coord(qq: int, pp: int, aa: int, bb: int, cc: int, x1: int, x2: int)
    ensures
        qq * (aa * x2 - cc * x1) - pp * (cc * x2 - bb * x1) == (bb * pp - cc * qq) * x1 + (aa * qq
            - cc * pp) * x2,
{
    lemma_mul_is_distributive_sub(qq, aa * x2, cc * x1);
    lemma_mul_is_distributive_sub(pp, cc * x2, bb * x1);
    lemma_mul_is_distributive_sub_other_way(x1, bb * pp, cc * qq);
    lemma_mul_is_distributive_sub_other_way(x2, aa * qq, cc * pp);
    assert(qq * (aa * x2) == (aa * qq) * x2) by (nonlinear_arith);
    assert(qq * (cc * x1) == (cc * qq) * x1) by (nonlinear_arith);
    assert(pp * (cc * x2) == (cc * pp) * x2) by (nonlinear_arith);
    assert(pp * (bb * x1) == (bb * pp) * x1) by (nonlinear_arith);
}

/// Forward round trip for queries in the triangle's plane: projecting a
/// point of the (non-degenerate) plane and reconstructing the position
/// gives back the point exactly.
pub proof fn lemma_triangle_point_round_trip(p: ClippingTriangleProjector, q: V3)
    requires
        p.wf(),
        dot(v3_sub(q, p.va@), cross(p.tri.e1@, p.tri.e2@)) == 0,
    ensures
        ({
            let b = spec_tri_project(p.tri, q);
            let rp = spec_tri_bary_to_point(p.va@, p.vb@, p.vc@, b);
            &&& rp.den > 0
            &&& rp.xn == q.x * rp.den
            &&& rp.yn == q.y * rp.den
            &&& rp.zn == q.z * rp.den
        }),
{
    let va = p.va@;
    let vb = p.vb@;
    let vc = p.vc@;
    let e1 = p.tri.e1@;
    let e2 = p.tri.e2@;
    let w = v3_sub(q, va);
    let n = cross(e1, e2);
    let den = dot(n, n);
    let aa = dot(e1, e1);
    let bb = dot(e2, e2);
    let cc = dot(e1, e2);
    let pp = dot(w, e1);
    let qq = dot(w, e2);
    // The projection numerators, reduced to Gram quantities:
    // u == bb*pp - cc*qq and v == aa*qq - cc*pp.
    lemma_scalar_triple_cyclic(w, e2, n);
    lemma_triple_product(e2, e1, e2);
    lemma_dot_comm(e2, e1);
    assert(cross(e2, n) == v3_sub(v3_scale(bb, e1), v3_scale(cc, e2)));
    lemma_dot_sub_right(w, v3_scale(bb, e1), v3_scale(cc, e2));
    lemma_dot_scale_right(bb, w, e1);
    lemma_dot_scale_right(cc, w, e2);
    let u = dot(cross(w, e2), n);
    assert(u == bb * pp - cc * qq);
    lemma_scalar_triple_cyclic(e1, w, n);
    lemma_triple_product(w, e1, e2);
    assert(cross(w, n) == v3_sub(v3_scale(qq, e1), v3_scale(pp, e2)));
    lemma_dot_sub_right(e1, v3_scale(qq, e1), v3_scale(pp, e2));
    lemma_dot_scale_right(qq, e1, e1);
    lemma_dot_scale_right(pp, e1, e2);
    let v = dot(cross(e1, w), n);
    assert(v == aa * qq - cc * pp);
    // The core identity: u*e1 + v*e2 == den*w for in-plane w, by
    // expanding n x (w x n) in two ways.
    lemma_triple_product(n, w, n);
    lemma_dot_comm(n, w);
    assert(cross(n, cross(w, n)) == v3_sub(v3_scale(den, w), v3_scale(0, n)));
    lemma_cross_sub_right(n, v3_scale(qq, e1), v3_scale(pp, e2));
    lemma_cross_scale_right(qq, n, e1);
    lemma_cross_scale_right(pp, n, e2);
    lemma_cross_antisym(n, e1);
    lemma_triple_product(e1, e1, e2);
    assert(cross(n, e1) == v3_sub(v3_scale(aa, e2), v3_scale(cc, e1)));
    lemma_cross_antisym(n, e2);
    assert(cross(n, e2) == v3_sub(v3_scale(cc, e2), v3_scale(bb, e1)));
    lemma_core_coord(qq, pp, aa, bb, cc, e1.x, e2.x);
    lemma_core_coord(qq, pp, aa, bb, cc, e1.y, e2.y);
    lemma_core_coord(qq, pp, aa, bb, cc, e1.z, e2.z);
    assert(u * e1.x + v * e2.x == den * w.x);
    assert(u * e1.y + v * e2.y == den * w.y);
    assert(u * e1.z + v * e2.z == den * w.z);
    // Recombine the vertices with the projected weights.
    let b = spec_tri_project(p.tri, q);
    let rp = spec_tri_bary_to_point(va, vb, vc, b);
    assert(b.n1 == u && b.n2 == v && b.den == den && b.n0 == den - u - v);
    assert(va.x * (den - u - v) + vb.x * u + vc.x * v == va.x * den + u * (vb.x - va.x) + v * (
    vc.x - va.x)) by (nonlinear_arith);
    assert(va.y * (den - u - v) + vb.y * u + vc.y * v == va.y * den + u * (vb.y - va.y) + v * (
    vc.y - va.y)) by (nonlinear_arith);
    assert(va.z * (den - u - v) + vb.z * u + vc.z * v == va.z * den + u * (vb.z - va.z) + v * (
    vc.z - va.z)) by (nonlinear_arith);
    assert(va.x * den + den * (q.x - va.x) == q.x * den) by (nonlinear_arith);
    assert(va.y * den + den * (q.y - va.y) == q.y * den) by (nonlinear_arith);
    assert(va.z * den + den * (q.z - va.z) == q.z * den) by (nonlinear_arith);
}

/// Round trip for the triangle's affine map: reconstructing the position
/// of any affine weight vector and projecting it again yields the same
/// weights (as rationals).
pub proof fn lemma_triangle_project_round_trip(p: ClippingTriangleProjector, b: B3)
    requires
        p.wf(),
        b3_valid(b),
    ensures
        b3_equiv(
            spec_tri_project_rat(p.tri, spec_tri_bary_to_point(p.va@, p.vb@, p.vc@, b)),
            b,
        ),
{
    let va = p.va@;
    let vb = p.vb@;
    let vc = p.vc@;
    let e1 = p.tri.e1@;
    let e2 = p.tri.e2@;
    let n = cross(e1, e2);
    let den = dot(n, n);
    let rp = spec_tri_bary_to_point(va, vb, vc, b);
    let optn = v3_sub(rp_nums(rp), v3_scale(rp.den, va));
    assert(va.x * b.n0 + vb.x * b.n1 + vc.x * b.n2 - b.den * va.x
        == b.n1 * (vb.x - va.x) + b.n2 * (vc.x - va.x)) by (nonlinear_arith)
        requires
            b.n0 + b.n1 + b.n2 == b.den,
    ;
    assert(va.y * b.n0 + vb.y * b.n1 + vc.y * b.n2 - b.den * va.y
        == b.n1 * (vb.y - va.y) + b.n2 * (vc.y - va.y)) by (nonlinear_arith)
        requires
            b.n0 + b.n1 + b.n2 == b.den,
    ;
    assert(va.z * b.n0 + vb.z * b.n1 + vc.z * b.n2 - b.den * va.z
        == b.n1 * (vb.z - va.z) + b.n2 * (vc.z - va.z)) by (nonlinear_arith)
        requires
            b.n0 + b.n1 + b.n2 == b.den,
    ;
    assert(optn == v3_add(v3_scale(b.n1, e1), v3_scale(b.n2, e2)));
    // u = dot(cross(optn, e2), n) == b.n1 * den
    lemma_cross_add_left(v3_scale(b.n1, e1), v3_scale(b.n2, e2), e2);
    lemma_cross_scale_left(b.n1, e1, e2);
    lemma_cross_scale_left(b.n2, e2, e2);
    lemma_cross_self(e2);
    assert(v3_scale(b.n2, V3 { x: 0, y: 0, z: 0 }) == (V3 { x: 0, y: 0, z: 0 }));
    assert(cross(optn, e2) == v3_add(v3_scale(b.n1, n), V3 { x: 0, y: 0, z: 0 }));
    lemma_dot_add_left(v3_scale(b.n1, n), V3 { x: 0, y: 0, z: 0 }, n);
    lemma_dot_scale_left(b.n1, n, n);
    let u = dot(cross(optn, e2), n);
    assert(u == b.n1 * den);
    // v = dot(cross(e1, optn), n) == b.n2 * den
    lemma_cross_add_right(e1, v3_scale(b.n1, e1), v3_scale(b.n2, e2));
    lemma_cross_scale_right(b.n1, e1, e1);
    lemma_cross_scale_right(b.n2, e1, e2);
    lemma_cross_self(e1);
    assert(v3_scale(b.n1, V3 { x: 0, y: 0, z: 0 }) == (V3 { x: 0, y: 0, z: 0 }));
    assert(cross(e1, optn) == v3_add(V3 { x: 0, y: 0, z: 0 }, v3_scale(b.n2, n)));
    lemma_dot_add_left(V3 { x: 0, y: 0, z: 0 }, v3_scale(b.n2, n), n);
    lemma_dot_scale_left(b.n2, n, n);
    let v = dot(cross(e1, optn), n);
    assert(v == b.n2 * den);
    lemma_dot_self_nonneg(n);
    let r = spec_tri_project_rat(p.tri, rp);
    assert(r.n1 == b.n1 * den && r.n2 == b.n2 * den && r.den == den * b.den && r.n0 == den * b.den
        - b.n1 * den - b.n2 * den);
    assert(den * b.den > 0) by (nonlinear_arith)
        requires
            den > 0,
            b.den > 0,
    ;
    assert((b.n1 * den) * b.den == b.n1 * (den * b.den)) by (nonlinear_arith);
    assert((b.n2 * den) * b.den == b.n2 * (den * b.den)) by (nonlinear_arith);
    assert((den * b.den - b.n1 * den - b.n2 * den) * b.den == b.n0 * (den * b.den))
        by (nonlinear_arith)
        requires
            b.n0 + b.n1 + b.n2 == b.den,
    ;
}

} // verus!
