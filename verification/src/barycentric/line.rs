//! Projection onto a two-point segment.

use vstd::prelude::*;

use vstd::arithmetic::mul::lemma_mul_is_distributive_add_other_way;

use crate::barycentric::geom::{
    mc, pt_in_range, v3_bounded, v3_sub, v3_scale, dot, cross, mul_bd, dot3, sub3, pt_c3,
    lemma_dot_scale_left, lemma_dot_scale_right, lemma_dot_self_nonneg, C3,
    Point, RatPoint, RP3, V3,
    rp_nums, rp_bounded,
};

verus! {

/// Largest barycentric numerator or denominator magnitude that
/// `bary_to_point` accepts; keeps its products inside `i128`.
pub const BARY_LIMIT: i128 = 0x100_0000_0000;

/// Barycentric weights over the segment's two endpoints: `n0 / den` for the
/// origin endpoint and `n1 / den` for the far endpoint.
#[derive(Clone, Copy)]
pub struct Bary2 {
    pub n0: i128,
    pub n1: i128,
    pub den: i128,
}

/// Spec-level mirror of `Bary2`.
pub ghost struct B2 {
    pub n0: int,
    pub n1: int,
    pub den: int,
}

impl View for Bary2 {
    type V = B2;

    open spec fn view(&self) -> B2 {
        B2 { n0: self.n0 as int, n1: self.n1 as int, den: self.den as int }
    }
}

/// The weights form an affine combination: positive denominator and
/// numerators summing to it (so the weights sum to one).
pub open spec fn b2_valid(b: B2) -> bool {
    &&& b.den > 0
    &&& b.n0 + b.n1 == b.den
}

pub open spec fn b2_nonneg(b: B2) -> bool {
    b.n0 >= 0 && b.n1 >= 0
}

pub open spec fn b2_bounded(b: B2, m: int) -> bool {
    &&& -m <= b.n0 <= m
    &&& -m <= b.n1 <= m
    &&& 0 < b.den <= m
}

/// Two weight vectors denote the same pair of rationals.
pub open spec fn b2_equiv(a: B2, b: B2) -> bool {
    &&& a.den > 0
    &&& b.den > 0
    &&& a.n0 * b.den == b.n0 * a.den
    &&& a.n1 * b.den == b.n1 * a.den
}

/// Barycentric weights of the integer point `q` relative to the segment
/// from `o` to `o + d`: `(1 - t, t)` with `t = ((q - o) . d) / (d . d)`.
/// A zero-length segment or a query at the origin endpoint yields `(1, 0)`.
pub open spec fn spec_line_project(o: V3, d: V3, q: V3) -> B2 {
    let nsq = dot(d, d);
    if nsq == 0 {
        B2 { n0: 1, n1: 0, den: 1 }
    } else {
        let opt = v3_sub(q, o);
        if dot(opt, opt) == 0 {
            B2 { n0: 1, n1: 0, den: 1 }
        } else {
            let t = dot(opt, d);
            B2 { n0: nsq - t, n1: t, den: nsq }
        }
    }
}

/// The same projection for a query with rational coordinates.
pub open spec fn spec_line_project_rat(o: V3, d: V3, rp: RP3) -> B2 {
    let nsq = dot(d, d);
    if nsq == 0 {
        B2 { n0: 1, n1: 0, den: 1 }
    } else {
        let optn = v3_sub(rp_nums(rp), v3_scale(rp.den, o));
        if dot(optn, optn) == 0 {
            B2 { n0: 1, n1: 0, den: 1 }
        } else {
            let t = dot(optn, d);
            B2 { n0: nsq * rp.den - t, n1: t, den: nsq * rp.den }
        }
    }
}

/// The position `o + d * (b.n1 / b.den)`, as a rational point.
pub open spec fn spec_line_bary_to_point(o: V3, d: V3, b: B2) -> RP3 {
    RP3 {
        xn: o.x * b.den + d.x * b.n1,
        yn: o.y * b.den + d.y * b.n1,
        zn: o.z * b.den + d.z * b.n1,
        den: b.den,
    }
}

/// Clamped projection: weights outside `[0, 1]` snap to the violated
/// endpoint; the flag records whether clamping happened.
pub open spec fn spec_line_clip(o: V3, d: V3, q: V3) -> (B2, bool) {
    let b = spec_line_project(o, d, q);
    if b.n0 < 0 {
        (B2 { n0: 0, n1: 1, den: 1 }, true)
    } else if b.n1 < 0 {
        (B2 { n0: 1, n1: 0, den: 1 }, true)
    } else {
        (b, false)
    }
}

/// Projects points onto the line through two vertices, reporting weights
/// over the two endpoints.
pub struct LineProjector {
    pub origin: C3,
    pub direction: C3,
    pub norm_squared: i128,
}

impl LineProjector {
    /// The projector's precomputed state is consistent and bounded.
    pub open spec fn wf(self) -> bool {
        &&& v3_bounded(self.origin@, mc())
        &&& v3_bounded(self.direction@, 2 * mc())
        &&& self.norm_squared as int == dot(self.direction@, self.direction@)
        &&& 0 <= self.norm_squared as int <= 12 * mc() * mc()
    }

    /// Builds the projector for the segment from `vertices[0]` to
    /// `vertices[1]`.  A zero-length segment is accepted; `project` then
    /// answers `(1, 0)` everywhere.
    pub fn new(vertices: [Point; 2]) -> (r: LineProjector)
        requires
            pt_in_range(vertices[0]),
            pt_in_range(vertices[1]),
        ensures
            r.wf(),
            r.origin@ == vertices[0]@,
            r.direction@ == v3_sub(vertices[1]@, vertices[0]@),
    {
        let a = pt_c3(&vertices[0]);
        let b = pt_c3(&vertices[1]);
        let direction = sub3(&b, &a, Ghost(mc()), Ghost(mc()));
        let norm_squared = dot3(&direction, &direction, Ghost(2 * mc()), Ghost(2 * mc()));
        proof {
            lemma_dot_self_nonneg(direction@);
        }
        LineProjector { origin: a, direction, norm_squared }
    }

    /// Barycentric weights of `pt` over the two endpoints; an exact affine
    /// map, so the weights always sum to one.
    pub fn project(&self, pt: &Point) -> (r: Bary2)
        requires
            self.wf(),
            pt_in_range(*pt),
        ensures
            r@ == spec_line_project(self.origin@, self.direction@, pt@),
            b2_valid(r@),
            b2_bounded(r@, 24 * mc() * mc()),
    {
        let q = pt_c3(pt);
        if self.norm_squared == 0 {
            return Bary2 { n0: 1, n1: 0, den: 1 };
        }
        let opt = sub3(&q, &self.origin, Ghost(mc()), Ghost(mc()));
        let dd = dot3(&opt, &opt, Ghost(2 * mc()), Ghost(2 * mc()));
        if dd == 0 {
            return Bary2 { n0: 1, n1: 0, den: 1 };
        }
        let t = dot3(&opt, &self.direction, Ghost(2 * mc()), Ghost(2 * mc()));
        Bary2 { n0: self.norm_squared - t, n1: t, den: self.norm_squared }
    }

    /// Reconstructs the position that the weights denote: `origin +
    /// direction * (b.n1 / b.den)`.
    pub fn bary_to_point(&self, b: &Bary2) -> (r: RatPoint)
        requires
            self.wf(),
            0 < b.den <= BARY_LIMIT,
            -BARY_LIMIT <= b.n1 <= BARY_LIMIT,
        ensures
            r@ == spec_line_bary_to_point(self.origin@, self.direction@, b@),
            r@.den == b@.den,
    {
        self.bary_to_point_bd(b, Ghost(BARY_LIMIT as int), Ghost(BARY_LIMIT as int))
    }

    /// `bary_to_point` with caller-supplied magnitude bounds, so that
    /// callers can track how large the reconstructed numerators get.
    pub(crate) fn bary_to_point_bd(
        &self,
        b: &Bary2,
        Ghost(mn): Ghost<int>,
        Ghost(md): Ghost<int>,
    ) -> (r: RatPoint)
        requires
            self.wf(),
            0 < b.den as int <= md,
            -mn <= b.n1 as int <= mn,
            mc() * md + 2 * (mc() * mn) <= i128::MAX as int,
        ensures
            r@ == spec_line_bary_to_point(self.origin@, self.direction@, b@),
            r@.den == b@.den,
            rp_bounded(r@, mc() * md + 2 * (mc() * mn), md),
    {
        proof {
            assert((2 * mc()) * mn == 2 * (mc() * mn)) by (nonlinear_arith);
            assert(mc() * md >= 0 && mc() * mn >= 0) by (nonlinear_arith)
                requires
                    md > 0,
                    -mn <= b.n1 as int <= mn,
                    mc() == 64,
            ;
        }
        let xn = mul_bd(self.origin.x, b.den, Ghost(mc()), Ghost(md))
            + mul_bd(self.direction.x, b.n1, Ghost(2 * mc()), Ghost(mn));
        let yn = mul_bd(self.origin.y, b.den, Ghost(mc()), Ghost(md))
            + mul_bd(self.direction.y, b.n1, Ghost(2 * mc()), Ghost(mn));
        let zn = mul_bd(self.origin.z, b.den, Ghost(mc()), Ghost(md))
            + mul_bd(self.direction.z, b.n1, Ghost(2 * mc()), Ghost(mn));
        RatPoint { xn, yn, zn, den: b.den }
    }

    /// Closest point on the segment, as clamped weights, plus whether the
    /// raw projection had to be clamped to an endpoint.
    pub fn clipping_project(&self, pt: &Point) -> (r: (Bary2, bool))
        requires
            self.wf(),
            pt_in_range(*pt),
        ensures
            r.0@ == spec_line_clip(self.origin@, self.direction@, pt@).0,
            r.1 == spec_line_clip(self.origin@, self.direction@, pt@).1,
            b2_valid(r.0@),
            b2_nonneg(r.0@),
            b2_bounded(r.0@, 24 * mc() * mc()),
    {
        let ret = self.project(pt);
        if ret.n0 < 0 {
            (Bary2 { n0: 0, n1: 1, den: 1 }, true)
        } else if ret.n1 < 0 {
            (Bary2 { n0: 1, n1: 0, den: 1 }, true)
        } else {
            (ret, false)
        }
    }
}

// ---------------------------------------------------------------------------
// Laws
// ---------------------------------------------------------------------------

/// A zero-length segment (both vertices equal) projects every query to the
/// weights `(1, 0)`; no division by zero occurs.
pub proof fn lemma_degenerate_line_projects_to_origin(o: V3, d: V3, q: V3)
    requires
        dot(d, d) == 0,
    ensures
        spec_line_project(o, d, q) == (B2 { n0: 1, n1: 0, den: 1 }),
{
}

/// Multiplication distributes over a three-term sum, from the right.
proof fn lemma_mul_dist3_right(k: int, a: int, b: int, c: int)
    ensures
        (a + b + c) * k == a * k + b * k + c * k,
{
    lemma_mul_is_distributive_add_other_way(k, a + b, c);
    lemma_mul_is_distributive_add_other_way(k, a, b);
}

/// One coordinate of the Lagrange identity for collinear vectors.
proof fn lemma_parallel_coord(dx: int, dy: int, dz: int, wx: int, wy: int, wz: int)
    requires
        dy * wz == dz * wy,
        dz * wx == dx * wz,
        dx * wy == dy * wx,
    ensures
        (dx * wx + dy * wy + dz * wz) * dx == (dx * dx + dy * dy + dz * dz) * wx,
{
    lemma_mul_dist3_right(dx, dx * wx, dy * wy, dz * wz);
    lemma_mul_dist3_right(wx, dx * dx, dy * dy, dz * dz);
    assert((dx * wx) * dx == (dx * dx) * wx) by (nonlinear_arith);
    assert((dy * wy) * dx == (dy * dy) * wx) by (nonlinear_arith)
        requires
            dx * wy == dy * wx,
    ;
    assert((dz * wz) * dx == (dz * dz) * wx) by (nonlinear_arith)
        requires
            dz * wx == dx * wz,
    ;
}

/// Lagrange identity specialized to collinear vectors: when `w` is
/// parallel to `d`, scaling `d` by their dot product is the same as
/// scaling `w` by the squared length of `d`.
proof fn lemma_parallel_projection(d: V3, w: V3)
    requires
        cross(d, w) == (V3 { x: 0, y: 0, z: 0 }),
    ensures
        v3_scale(dot(d, w), d) == v3_scale(dot(d, d), w),
{
    lemma_parallel_coord(d.x, d.y, d.z, w.x, w.y, w.z);
    lemma_parallel_coord(d.y, d.z, d.x, w.y, w.z, w.x);
    lemma_parallel_coord(d.z, d.x, d.y, w.z, w.x, w.y);
    assert(dot(d, w) * d.x == dot(d, d) * w.x) by {
        assert(dot(d, w) == d.x * w.x + d.y * w.y + d.z * w.z);
        assert(dot(d, d) == d.x * d.x + d.y * d.y + d.z * d.z);
    }
    assert(dot(d, w) * d.y == dot(d, d) * w.y) by {
        assert(dot(d, w) == d.y * w.y + d.z * w.z + d.x * w.x);
        assert(dot(d, d) == d.y * d.y + d.z * d.z + d.x * d.x);
    }
    assert(dot(d, w) * d.z == dot(d, d) * w.z) by {
        assert(dot(d, w) == d.z * w.z + d.x * w.x + d.y * w.y);
        assert(dot(d, d) == d.z * d.z + d.x * d.x + d.y * d.y);
    }
}

/// Forward round trip for queries on the line: projecting a point that
/// lies on the (non-degenerate) line and reconstructing the position
/// gives back the point exactly.
pub proof fn lemma_line_point_round_trip(l: LineProjector, q: V3)
    requires
        l.wf(),
        dot(l.direction@, l.direction@) != 0,
        cross(l.direction@, v3_sub(q, l.origin@)) == (V3 { x: 0, y: 0, z: 0 }),
    ensures
        ({
            let b = spec_line_project(l.origin@, l.direction@, q);
            let rp = spec_line_bary_to_point(l.origin@, l.direction@, b);
            &&& rp.den > 0
            &&& rp.xn == q.x * rp.den
            &&& rp.yn == q.y * rp.den
            &&& rp.zn == q.z * rp.den
        }),
{
    let o = l.origin@;
    let d = l.direction@;
    let w = v3_sub(q, o);
    let nsq = dot(d, d);
    lemma_dot_self_nonneg(d);
    if dot(w, w) == 0 {
        assert(w.x * w.x + w.y * w.y + w.z * w.z == 0 ==> w.x == 0 && w.y == 0 && w.z == 0)
            by (nonlinear_arith);
        assert(q == o);
    } else {
        lemma_parallel_projection(d, w);
        let t = dot(w, d);
        assert(dot(d, w) == t) by (nonlinear_arith)
            requires
                t == dot(w, d),
                dot(w, d) == w.x * d.x + w.y * d.y + w.z * d.z,
                dot(d, w) == d.x * w.x + d.y * w.y + d.z * w.z,
        ;
        // The reconstructed numerators: o * nsq + d * t == q * nsq.
        assert(v3_scale(t, d) == v3_scale(nsq, w));
        let b = spec_line_project(o, d, q);
        let rp = spec_line_bary_to_point(o, d, b);
        assert(rp.xn == o.x * nsq + d.x * t);
        assert(d.x * t == t * d.x && d.y * t == t * d.y && d.z * t == t * d.z)
            by (nonlinear_arith);
        assert(nsq * w.x == q.x * nsq - o.x * nsq) by (nonlinear_arith)
            requires
                w.x == q.x - o.x,
        ;
        assert(nsq * w.y == q.y * nsq - o.y * nsq) by (nonlinear_arith)
            requires
                w.y == q.y - o.y,
        ;
        assert(nsq * w.z == q.z * nsq - o.z * nsq) by (nonlinear_arith)
            requires
                w.z == q.z - o.z,
        ;
    }
}

/// Round trip for the segment's affine map: reconstructing the position of
/// any affine weight vector and projecting it again yields the same
/// weights (as rationals).  Requires a non-degenerate segment.
pub proof fn lemma_line_project_round_trip(l: LineProjector, b: B2)
    requires
        l.wf(),
        b2_valid(b),
        dot(l.direction@, l.direction@) != 0,
    ensures
        b2_equiv(spec_line_project_rat(l.origin@, l.direction@,
            spec_line_bary_to_point(l.origin@, l.direction@, b)), b),
{
    let o = l.origin@;
    let d = l.direction@;
    let nsq = dot(d, d);
    let rp = spec_line_bary_to_point(o, d, b);
    let optn = v3_sub(rp_nums(rp), v3_scale(rp.den, o));
    assert(o.x * b.den + d.x * b.n1 - b.den * o.x == b.n1 * d.x) by (nonlinear_arith);
    assert(o.y * b.den + d.y * b.n1 - b.den * o.y == b.n1 * d.y) by (nonlinear_arith);
    assert(o.z * b.den + d.z * b.n1 - b.den * o.z == b.n1 * d.z) by (nonlinear_arith);
    assert(optn == v3_scale(b.n1, d));
    lemma_dot_scale_left(b.n1, d, v3_scale(b.n1, d));
    lemma_dot_scale_right(b.n1, v3_scale(b.n1, d), d);
    lemma_dot_scale_left(b.n1, d, d);
    lemma_dot_scale_right(b.n1, d, d);
    // dot(optn, optn) == b.n1 * (b.n1 * nsq), dot(optn, d) == b.n1 * nsq
    assert(dot(optn, d) == b.n1 * nsq);
    lemma_dot_self_nonneg(d);
    if b.n1 == 0 {
        assert(dot(optn, optn) == 0 * (0 * nsq));
        let r = spec_line_project_rat(o, d, rp);
        assert(r == (B2 { n0: 1, n1: 0, den: 1 }));
        assert(b.n0 == b.den);
        assert(1 * b.den == b.n0 * 1 && 0 * b.den == b.n1 * 1) by (nonlinear_arith)
            requires
                b.n0 == b.den,
                b.n1 == 0,
        ;
    } else {
        let sq = dot(optn, optn);
        assert(sq == b.n1 * dot(d, v3_scale(b.n1, d)));
        assert(dot(d, v3_scale(b.n1, d)) == b.n1 * nsq);
        assert(sq == b.n1 * (b.n1 * nsq));
        assert(sq > 0) by (nonlinear_arith)
            requires
                sq == b.n1 * (b.n1 * nsq),
                b.n1 != 0,
                nsq > 0,
        ;
        let r = spec_line_project_rat(o, d, rp);
        assert(r.n1 == b.n1 * nsq && r.den == nsq * b.den && r.n0 == nsq * b.den - b.n1 * nsq);
        assert(nsq * b.den > 0) by (nonlinear_arith)
            requires
                nsq > 0,
                b.den > 0,
        ;
        assert((b.n1 * nsq) * b.den == b.n1 * (nsq * b.den)) by (nonlinear_arith);
        assert((nsq * b.den - b.n1 * nsq) * b.den == b.n0 * (nsq * b.den)) by (nonlinear_arith)
            requires
                b.n0 + b.n1 == b.den,
        ;
    }
}

} // verus!
