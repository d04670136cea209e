//! Projection into a tetrahedron's barycentric frame.
//!
//! The projector stores the integer adjugate of the homogeneous vertex
//! matrix together with its determinant.  The constructor multiplies the
//! two matrices back together and keeps the projector only if the product
//! is exactly the determinant times the identity, so every downstream
//! proof rests on checked integer identities rather than on a symbolic
//! matrix-inversion argument.

use vstd::prelude::*;

use crate::barycentric::geom::{
    mc, pt_in_range, v3_bounded, v3_sub, v3_neg, dot, cross, mul_bd, dot3, cross3, sub3, neg3,
    dot4, pt_c3, C3, GeomError, Point, RatPoint, RP3, V3,
};
use crate::barycentric::line::BARY_LIMIT;
use vstd::arithmetic::mul::{
    lemma_mul_is_associative, lemma_mul_is_distributive_add, lemma_mul_is_distributive_add_other_way,
};

verus! {

/// Barycentric weights over a tetrahedron's four vertices, as numerators
/// over a shared positive denominator.
#[derive(Clone, Copy)]
pub struct Bary4 {
    pub n0: i128,
    pub n1: i128,
    pub n2: i128,
    pub n3: i128,
    pub den: i128,
}

/// Spec-level mirror of `Bary4`.
pub ghost struct B4 {
    pub n0: int,
    pub n1: int,
    pub n2: int,
    pub n3: int,
    pub den: int,
}

impl View for Bary4 {
    type V = B4;

    open spec fn view(&self) -> B4 {
        B4 {
            n0: self.n0 as int,
            n1: self.n1 as int,
            n2: self.n2 as int,
            n3: self.n3 as int,
            den: self.den as int,
        }
    }
}

/// The weights form an affine combination: positive denominator and
/// numerators summing to it (so the weights sum to one).
pub open spec fn b4_valid(b: B4) -> bool {
    &&& b.den > 0
    &&& b.n0 + b.n1 + b.n2 + b.n3 == b.den
}

pub open spec fn b4_nonneg(b: B4) -> bool {
    b.n0 >= 0 && b.n1 >= 0 && b.n2 >= 0 && b.n3 >= 0
}

pub open spec fn b4_bounded(b: B4, mn: int, md: int) -> bool {
    &&& -mn <= b.n0 <= mn
    &&& -mn <= b.n1 <= mn
    &&& -mn <= b.n2 <= mn
    &&& -mn <= b.n3 <= mn
    &&& 0 < b.den <= md
}

/// Two weight vectors denote the same quadruple of rationals.
pub open spec fn b4_equiv(a: B4, b: B4) -> bool {
    &&& a.den > 0
    &&& b.den > 0
    &&& a.n0 * b.den == b.n0 * a.den
    &&& a.n1 * b.den == b.n1 * a.den
    &&& a.n2 * b.den == b.n2 * a.den
    &&& a.n3 * b.den == b.n3 * a.den
}

/// One row of the to-barycentric matrix: the weight numerator of a point
/// `(x, y, z)` for this row's vertex is `x*rx + y*ry + z*rz + rw`.
#[derive(Clone, Copy)]
pub struct Row4 {
    pub x: i128,
    pub y: i128,
    pub z: i128,
    pub w: i128,
}

/// Spec-level mirror of `Row4`.
pub ghost struct R4 {
    pub x: int,
    pub y: int,
    pub z: int,
    pub w: int,
}

impl View for Row4 {
    type V = R4;

    open spec fn view(&self) -> R4 {
        R4 { x: self.x as int, y: self.y as int, z: self.z as int, w: self.w as int }
    }
}

/// The row applied to the homogeneous coordinates of the integer point `v`.
pub open spec fn row_apply(t: R4, v: V3) -> int {
    t.x * v.x + t.y * v.y + t.z * v.z + t.w
}

pub open spec fn r4_bounded(t: R4, mxyz: int, mw: int) -> bool {
    &&& -mxyz <= t.x <= mxyz
    &&& -mxyz <= t.y <= mxyz
    &&& -mxyz <= t.z <= mxyz
    &&& -mw <= t.w <= mw
}

/// The checked inverse identities between the to-barycentric rows and the
/// homogeneous vertex matrix:
/// applying the rows to each vertex gives `den` times a one-hot vector
/// (rows times matrix), and recombining the vertices with any projected
/// weights reproduces the point (matrix times rows, coordinate rows).
pub open spec fn tet_facts(t0: R4, t1: R4, t2: R4, t3: R4, a: V3, b: V3, c: V3, d: V3, den: int) -> bool {
    &&& row_apply(t0, a) == den
    &&& row_apply(t0, b) == 0
    &&& row_apply(t0, c) == 0
    &&& row_apply(t0, d) == 0
    &&& row_apply(t1, a) == 0
    &&& row_apply(t1, b) == den
    &&& row_apply(t1, c) == 0
    &&& row_apply(t1, d) == 0
    &&& row_apply(t2, a) == 0
    &&& row_apply(t2, b) == 0
    &&& row_apply(t2, c) == den
    &&& row_apply(t2, d) == 0
    &&& row_apply(t3, a) == 0
    &&& row_apply(t3, b) == 0
    &&& row_apply(t3, c) == 0
    &&& row_apply(t3, d) == den
    &&& a.x * t0.x + b.x * t1.x + c.x * t2.x + d.x * t3.x == den
    &&& a.x * t0.y + b.x * t1.y + c.x * t2.y + d.x * t3.y == 0
    &&& a.x * t0.z + b.x * t1.z + c.x * t2.z + d.x * t3.z == 0
    &&& a.x * t0.w + b.x * t1.w + c.x * t2.w + d.x * t3.w == 0
    &&& a.y * t0.x + b.y * t1.x + c.y * t2.x + d.y * t3.x == 0
    &&& a.y * t0.y + b.y * t1.y + c.y * t2.y + d.y * t3.y == den
    &&& a.y * t0.z + b.y * t1.z + c.y * t2.z + d.y * t3.z == 0
    &&& a.y * t0.w + b.y * t1.w + c.y * t2.w + d.y * t3.w == 0
    &&& a.z * t0.x + b.z * t1.x + c.z * t2.x + d.z * t3.x == 0
    &&& a.z * t0.y + b.z * t1.y + c.z * t2.y + d.z * t3.y == 0
    &&& a.z * t0.z + b.z * t1.z + c.z * t2.z + d.z * t3.z == den
    &&& a.z * t0.w + b.z * t1.w + c.z * t2.w + d.z * t3.w == 0
    &&& t0.x + t1.x + t2.x + t3.x == 0
    &&& t0.y + t1.y + t2.y + t3.y == 0
    &&& t0.z + t1.z + t2.z + t3.z == 0
    &&& t0.w + t1.w + t2.w + t3.w == den
}

/// The candidate rows and determinant computed from four vertices: the
/// adjugate of the homogeneous vertex matrix, sign-normalized so the
/// determinant is non-negative.
pub ghost struct TetPre {
    pub t0: R4,
    pub t1: R4,
    pub t2: R4,
    pub t3: R4,
    pub den: int,
}

pub open spec fn spec_tet_pre(a: V3, b: V3, c: V3, d: V3) -> TetPre {
    let e1 = v3_sub(b, a);
    let e2 = v3_sub(c, a);
    let e3 = v3_sub(d, a);
    let c23 = cross(e2, e3);
    let c31 = cross(e3, e1);
    let c12 = cross(e1, e2);
    let det = dot(e1, c23);
    let k23 = if det < 0 { v3_neg(c23) } else { c23 };
    let k31 = if det < 0 { v3_neg(c31) } else { c31 };
    let k12 = if det < 0 { v3_neg(c12) } else { c12 };
    let den = if det < 0 { -det } else { det };
    let t1 = R4 { x: k23.x, y: k23.y, z: k23.z, w: -dot(k23, a) };
    let t2 = R4 { x: k31.x, y: k31.y, z: k31.z, w: -dot(k31, a) };
    let t3 = R4 { x: k12.x, y: k12.y, z: k12.z, w: -dot(k12, a) };
    let t0 = R4 {
        x: -(t1.x + t2.x + t3.x),
        y: -(t1.y + t2.y + t3.y),
        z: -(t1.z + t2.z + t3.z),
        w: den - t1.w - t2.w - t3.w,
    };
    TetPre { t0, t1, t2, t3, den }
}

/// Construction succeeds exactly when the vertices are not coplanar and
/// the computed rows pass the inverse identities.
pub open spec fn spec_tet_ok(a: V3, b: V3, c: V3, d: V3) -> bool {
    let pre = spec_tet_pre(a, b, c, d);
    pre.den > 0 && tet_facts(pre.t0, pre.t1, pre.t2, pre.t3, a, b, c, d, pre.den)
}

/// Largest numerator magnitude a tetrahedron projection can produce.
pub open spec fn tet_num_bound() -> int {
    192 * (mc() * (mc() * mc()))
}

/// Largest denominator a tetrahedron projection can produce.
pub open spec fn tet_den_bound() -> int {
    48 * (mc() * (mc() * mc()))
}

/// Bound on the stored rows' coordinate entries.
pub open spec fn tet_row_xyz_bound() -> int {
    24 * (mc() * mc())
}

/// Bound on the stored rows' constant entries.
pub open spec fn tet_row_bound() -> int {
    120 * (mc() * (mc() * mc()))
}

/// Projects points into a tetrahedron's barycentric frame, reporting
/// unclamped weights over the four vertices.
pub struct TetrahedronProjector {
    pub a: C3,
    pub b: C3,
    pub c: C3,
    pub d: C3,
    pub t0: Row4,
    pub t1: Row4,
    pub t2: Row4,
    pub t3: Row4,
    pub den: i128,
}

/// Weights of the integer point `q` over the four vertices.
pub open spec fn spec_tet_project(t: TetrahedronProjector, q: V3) -> B4 {
    B4 {
        n0: row_apply(t.t0@, q),
        n1: row_apply(t.t1@, q),
        n2: row_apply(t.t2@, q),
        n3: row_apply(t.t3@, q),
        den: t.den as int,
    }
}

/// The same projection for a query with rational coordinates.
pub open spec fn spec_tet_project_rat(t: TetrahedronProjector, rp: RP3) -> B4 {
    B4 {
        n0: t.t0@.x * rp.xn + t.t0@.y * rp.yn + t.t0@.z * rp.zn + t.t0@.w * rp.den,
        n1: t.t1@.x * rp.xn + t.t1@.y * rp.yn + t.t1@.z * rp.zn + t.t1@.w * rp.den,
        n2: t.t2@.x * rp.xn + t.t2@.y * rp.yn + t.t2@.z * rp.zn + t.t2@.w * rp.den,
        n3: t.t3@.x * rp.xn + t.t3@.y * rp.yn + t.t3@.z * rp.zn + t.t3@.w * rp.den,
        den: t.den as int * rp.den,
    }
}

/// The weighted combination of the four vertices.
pub open spec fn spec_tet_bary_to_point(t: TetrahedronProjector, b: B4) -> RP3 {
    RP3 {
        xn: t.a@.x * b.n0 + t.b@.x * b.n1 + t.c@.x * b.n2 + t.d@.x * b.n3,
        yn: t.a@.y * b.n0 + t.b@.y * b.n1 + t.c@.y * b.n2 + t.d@.y * b.n3,
        zn: t.a@.z * b.n0 + t.b@.z * b.n1 + t.c@.z * b.n2 + t.d@.z * b.n3,
        den: b.den,
    }
}

impl TetrahedronProjector {
    /// The projector's precomputed state is consistent, bounded, and
    /// passes the checked inverse identities.
    pub open spec fn wf(self) -> bool {
        &&& v3_bounded(self.a@, mc())
        &&& v3_bounded(self.b@, mc())
        &&& v3_bounded(self.c@, mc())
        &&& v3_bounded(self.d@, mc())
        &&& r4_bounded(self.t0@, tet_row_xyz_bound(), tet_row_bound())
        &&& r4_bounded(self.t1@, tet_row_xyz_bound(), tet_row_bound())
        &&& r4_bounded(self.t2@, tet_row_xyz_bound(), tet_row_bound())
        &&& r4_bounded(self.t3@, tet_row_xyz_bound(), tet_row_bound())
        &&& 0 < self.den as int <= tet_den_bound()
        &&& tet_facts(self.t0@, self.t1@, self.t2@, self.t3@, self.a@, self.b@, self.c@, self.d@,
            self.den as int)
    }

    /// Builds the projector from four vertices.  Fails exactly when the
    /// vertices are coplanar (degenerate geometry) or the computed rows
    /// fail the inverse identities, instead of inverting a singular
    /// matrix.
    pub fn new(vertices: [Point; 4]) -> (r: Result<TetrahedronProjector, GeomError>)
        requires
            pt_in_range(vertices[0]),
            pt_in_range(vertices[1]),
            pt_in_range(vertices[2]),
            pt_in_range(vertices[3]),
        ensures
            (r is Ok) <==> spec_tet_ok(vertices[0]@, vertices[1]@, vertices[2]@, vertices[3]@),
            r matches Ok(t) ==> {
                &&& t.wf()
                &&& t.a@ == vertices[0]@
                &&& t.b@ == vertices[1]@
                &&& t.c@ == vertices[2]@
                &&& t.d@ == vertices[3]@
            },
            r matches Err(e) ==> e == GeomError::Degenerate,
    {
        let av = pt_c3(&vertices[0]);
        let bv = pt_c3(&vertices[1]);
        let cv = pt_c3(&vertices[2]);
        let dv = pt_c3(&vertices[3]);
        let ghost pre = spec_tet_pre(av@, bv@, cv@, dv@);
        let e1 = sub3(&bv, &av, Ghost(mc()), Ghost(mc()));
        let e2 = sub3(&cv, &av, Ghost(mc()), Ghost(mc()));
        let e3 = sub3(&dv, &av, Ghost(mc()), Ghost(mc()));
        let c23 = cross3(&e2, &e3, Ghost(2 * mc()), Ghost(2 * mc()));
        let c31 = cross3(&e3, &e1, Ghost(2 * mc()), Ghost(2 * mc()));
        let c12 = cross3(&e1, &e2, Ghost(2 * mc()), Ghost(2 * mc()));
        let ghost cb = 2 * ((2 * mc()) * (2 * mc()));
        proof {
            assert(cb == 32768 && 3 * (cb * mc()) == 6291456 && 3 * ((2 * mc()) * cb) == 12582912
                && 2 * ((2 * mc()) * cb)  <= i128::MAX as int) by (nonlinear_arith)
                requires
                    mc() == 64,
                    cb == 2 * ((2 * mc()) * (2 * mc())),
            ;
        }
        let det = dot3(&e1, &c23, Ghost(2 * mc()), Ghost(cb));
        if det == 0 {
            return Err(GeomError::Degenerate);
        }
        let (k23, k31, k12, den) = if det < 0 {
            (neg3(&c23, Ghost(cb)), neg3(&c31, Ghost(cb)), neg3(&c12, Ghost(cb)), -det)
        } else {
            (c23, c31, c12, det)
        };
        let t1 = Row4 {
            x: k23.x,
            y: k23.y,
            z: k23.z,
            w: -dot3(&k23, &av, Ghost(cb), Ghost(mc())),
        };
        let t2 = Row4 {
            x: k31.x,
            y: k31.y,
            z: k31.z,
            w: -dot3(&k31, &av, Ghost(cb), Ghost(mc())),
        };
        let t3 = Row4 {
            x: k12.x,
            y: k12.y,
            z: k12.z,
            w: -dot3(&k12, &av, Ghost(cb), Ghost(mc())),
        };
        let t0 = Row4 {
            x: -(t1.x + t2.x + t3.x),
            y: -(t1.y + t2.y + t3.y),
            z: -(t1.z + t2.z + t3.z),
            w: den - t1.w - t2.w - t3.w,
        };
        assert(t0@ == pre.t0 && t1@ == pre.t1 && t2@ == pre.t2 && t3@ == pre.t3 && den as int
            == pre.den);
        proof {
            assert(tet_row_bound() == 31457280 && tet_den_bound() == 12582912
                && tet_row_xyz_bound() == 98304) by (nonlinear_arith)
                requires
                    mc() == 64,
                    tet_row_bound() == 120 * (mc() * (mc() * mc())),
                    tet_den_bound() == 48 * (mc() * (mc() * mc())),
                    tet_row_xyz_bound() == 24 * (mc() * mc()),
            ;
        }
        let candidate = TetrahedronProjector { a: av, b: bv, c: cv, d: dv, t0, t1, t2, t3, den };
        if candidate.check_identities() {
            Ok(candidate)
        } else {
            Err(GeomError::Degenerate)
        }
    }

    /// Multiplies the stored rows against the vertex matrix in both
    /// orders and compares with `den` times the identity.
    fn check_identities(&self) -> (r: bool)
        requires
            v3_bounded(self.a@, mc()),
            v3_bounded(self.b@, mc()),
            v3_bounded(self.c@, mc()),
            v3_bounded(self.d@, mc()),
            r4_bounded(self.t0@, tet_row_xyz_bound(), tet_row_bound()),
            r4_bounded(self.t1@, tet_row_xyz_bound(), tet_row_bound()),
            r4_bounded(self.t2@, tet_row_xyz_bound(), tet_row_bound()),
            r4_bounded(self.t3@, tet_row_xyz_bound(), tet_row_bound()),
            self.t0@.x + self.t1@.x + self.t2@.x + self.t3@.x == 0,
            self.t0@.y + self.t1@.y + self.t2@.y + self.t3@.y == 0,
            self.t0@.z + self.t1@.z + self.t2@.z + self.t3@.z == 0,
            self.t0@.w + self.t1@.w + self.t2@.w + self.t3@.w == self.den as int,
        ensures
            r <==> tet_facts(self.t0@, self.t1@, self.t2@, self.t3@, self.a@, self.b@, self.c@,
                self.d@, self.den as int),
    {
        proof {
            assert(tet_row_bound() == 31457280 && tet_row_xyz_bound() == 98304
                && 4 * (tet_row_bound() * mc()) == 8053063680
                && 4 * (mc() * tet_row_bound()) == 8053063680) by (nonlinear_arith)
                requires
                    mc() == 64,
                    tet_row_bound() == 120 * (mc() * (mc() * mc())),
                    tet_row_xyz_bound() == 24 * (mc() * mc()),
            ;
        }
        let ta = self.row_eval(&self.t0, &self.a) == self.den && self.row_eval(&self.t0, &self.b)
            == 0 && self.row_eval(&self.t0, &self.c) == 0 && self.row_eval(&self.t0, &self.d) == 0
            && self.row_eval(&self.t1, &self.a) == 0 && self.row_eval(&self.t1, &self.b)
            == self.den && self.row_eval(&self.t1, &self.c) == 0 && self.row_eval(
            &self.t1,
            &self.d,
        ) == 0 && self.row_eval(&self.t2, &self.a) == 0 && self.row_eval(&self.t2, &self.b) == 0
            && self.row_eval(&self.t2, &self.c) == self.den && self.row_eval(&self.t2, &self.d)
            == 0 && self.row_eval(&self.t3, &self.a) == 0 && self.row_eval(&self.t3, &self.b) == 0
            && self.row_eval(&self.t3, &self.c) == 0 && self.row_eval(&self.t3, &self.d)
            == self.den;
        let mx = dot4(self.a.x, self.t0.x, self.b.x, self.t1.x, self.c.x, self.t2.x, self.d.x,
            self.t3.x, Ghost(mc()), Ghost(tet_row_bound())) == self.den && dot4(self.a.x, self.t0.y, self.b.x,
            self.t1.y, self.c.x, self.t2.y, self.d.x, self.t3.y, Ghost(mc()), Ghost(tet_row_bound())) == 0 && dot4(
            self.a.x, self.t0.z, self.b.x, self.t1.z, self.c.x, self.t2.z, self.d.x, self.t3.z,
            Ghost(mc()), Ghost(tet_row_bound())) == 0 && dot4(self.a.x, self.t0.w, self.b.x, self.t1.w, self.c.x,
            self.t2.w, self.d.x, self.t3.w, Ghost(mc()), Ghost(tet_row_bound())) == 0;
        let my = dot4(self.a.y, self.t0.x, self.b.y, self.t1.x, self.c.y, self.t2.x, self.d.y,
            self.t3.x, Ghost(mc()), Ghost(tet_row_bound())) == 0 && dot4(self.a.y, self.t0.y, self.b.y, self.t1.y,
            self.c.y, self.t2.y, self.d.y, self.t3.y, Ghost(mc()), Ghost(tet_row_bound())) == self.den && dot4(
            self.a.y, self.t0.z, self.b.y, self.t1.z, self.c.y, self.t2.z, self.d.y, self.t3.z,
            Ghost(mc()), Ghost(tet_row_bound())) == 0 && dot4(self.a.y, self.t0.w, self.b.y, self.t1.w, self.c.y,
            self.t2.w, self.d.y, self.t3.w, Ghost(mc()), Ghost(tet_row_bound())) == 0;
        let mz = dot4(self.a.z, self.t0.x, self.b.z, self.t1.x, self.c.z, self.t2.x, self.d.z,
            self.t3.x, Ghost(mc()), Ghost(tet_row_bound())) == 0 && dot4(self.a.z, self.t0.y, self.b.z, self.t1.y,
            self.c.z, self.t2.y, self.d.z, self.t3.y, Ghost(mc()), Ghost(tet_row_bound())) == 0 && dot4(self.a.z,
            self.t0.z, self.b.z, self.t1.z, self.c.z, self.t2.z, self.d.z, self.t3.z, Ghost(mc()),
            Ghost(tet_row_bound())) == self.den && dot4(self.a.z, self.t0.w, self.b.z, self.t1.w, self.c.z, self.t2.w,
            self.d.z, self.t3.w, Ghost(mc()), Ghost(tet_row_bound())) == 0;
        ta && mx && my && mz
    }

    /// The row applied to a vertex's homogeneous coordinates.
    fn row_eval(&self, t: &Row4, v: &C3) -> (r: i128)
        requires
            r4_bounded(t@, tet_row_xyz_bound(), tet_row_bound()),
            v3_bounded(v@, mc()),
        ensures
            r as int == row_apply(t@, v@),
            -tet_num_bound() <= r as int <= tet_num_bound(),
    {
        proof {
            assert(tet_row_bound() == 31457280 && tet_row_xyz_bound() == 98304
                && tet_num_bound() == 50331648 && tet_row_xyz_bound() * mc() == 6291456)
                by (nonlinear_arith)
                requires
                    mc() == 64,
                    tet_row_bound() == 120 * (mc() * (mc() * mc())),
                    tet_row_xyz_bound() == 24 * (mc() * mc()),
                    tet_num_bound() == 192 * (mc() * (mc() * mc())),
            ;
        }
        mul_bd(t.x, v.x, Ghost(tet_row_xyz_bound()), Ghost(mc())) + mul_bd(t.y, v.y,
            Ghost(tet_row_xyz_bound()), Ghost(mc())) + mul_bd(t.z, v.z,
            Ghost(tet_row_xyz_bound()), Ghost(mc())) + t.w
    }

    /// Unclamped barycentric weights of `pt`; an exact affine map over
    /// all of space, so the weights always sum to one.
    pub fn project(&self, pt: &Point) -> (r: Bary4)
        requires
            self.wf(),
            pt_in_range(*pt),
        ensures
            r@ == spec_tet_project(*self, pt@),
            b4_valid(r@),
            b4_bounded(r@, tet_num_bound(), tet_den_bound()),
    {
        let q = pt_c3(pt);
        let n0 = self.row_eval(&self.t0, &q);
        let n1 = self.row_eval(&self.t1, &q);
        let n2 = self.row_eval(&self.t2, &q);
        let n3 = self.row_eval(&self.t3, &q);
        proof {
            lemma_recombine(1, 1, 1, 1, self.t0@, self.t1@, self.t2@, self.t3@, q@, 0, 0, 0,
                self.den as int);
        }
        Bary4 { n0, n1, n2, n3, den: self.den }
    }

    /// Reconstructs the position that the weights denote: the weighted
    /// combination of the four vertices.  The weights must be an affine
    /// combination (numerators summing to the denominator); on those the
    /// map is the exact inverse of `project`, and the homogeneous
    /// coordinate it divides by coincides with the stored denominator.
    pub fn bary_to_point(&self, b: &Bary4) -> (r: RatPoint)
        requires
            self.wf(),
            b@.n0 + b@.n1 + b@.n2 + b@.n3 == b@.den,
            0 < b.den <= BARY_LIMIT,
            -BARY_LIMIT <= b.n0 <= BARY_LIMIT,
            -BARY_LIMIT <= b.n1 <= BARY_LIMIT,
            -BARY_LIMIT <= b.n2 <= BARY_LIMIT,
            -BARY_LIMIT <= b.n3 <= BARY_LIMIT,
        ensures
            r@ == spec_tet_bary_to_point(*self, b@),
            r@.den == b@.den,
    {
        let xn = dot4(self.a.x, b.n0, self.b.x, b.n1, self.c.x, b.n2, self.d.x, b.n3, Ghost(mc()),
            Ghost(BARY_LIMIT as int));
        let yn = dot4(self.a.y, b.n0, self.b.y, b.n1, self.c.y, b.n2, self.d.y, b.n3, Ghost(mc()),
            Ghost(BARY_LIMIT as int));
        let zn = dot4(self.a.z, b.n0, self.b.z, b.n1, self.c.z, b.n2, self.d.z, b.n3, Ghost(mc()),
            Ghost(BARY_LIMIT as int));
        RatPoint { xn, yn, zn, den: b.den }
    }
}

// ---------------------------------------------------------------------------
// Laws
// ---------------------------------------------------------------------------

/// Multiplication distributes over a four-term sum.
proof fn lemma_mul_dist4(k: int, a: int, b: int, c: int, d: int)
    ensures
        k * (a + b + c + d) == k * a + k * b + k * c + k * d,
{
    lemma_mul_is_distributive_add(k, a + b + c, d);
    lemma_mul_is_distributive_add(k, a + b, c);
    lemma_mul_is_distributive_add(k, a, b);
}

/// Multiplication distributes over a four-term sum, from the right.
proof fn lemma_mul_dist4_right(k: int, a: int, b: int, c: int, d: int)
    ensures
        (a + b + c + d) * k == a * k + b * k + c * k + d * k,
{
    lemma_mul_is_distributive_add_other_way(k, a + b + c, d);
    lemma_mul_is_distributive_add_other_way(k, a + b, c);
    lemma_mul_is_distributive_add_other_way(k, a, b);
}

/// Recombining the four rows' weight numerators with one coordinate of
/// each vertex groups into the matrix-times-rows sums against the query's
/// coordinates.
proof fn lemma_recombine(
    va: int,
    vb: int,
    vc: int,
    vd: int,
    r0: R4,
    r1: R4,
    r2: R4,
    r3: R4,
    q: V3,
    ax: int,
    ay: int,
    az: int,
    aw: int,
)
    requires
        va * r0.x + vb * r1.x + vc * r2.x + vd * r3.x == ax,
        va * r0.y + vb * r1.y + vc * r2.y + vd * r3.y == ay,
        va * r0.z + vb * r1.z + vc * r2.z + vd * r3.z == az,
        va * r0.w + vb * r1.w + vc * r2.w + vd * r3.w == aw,
    ensures
        va * row_apply(r0, q) + vb * row_apply(r1, q) + vc * row_apply(r2, q) + vd * row_apply(
            r3,
            q,
        ) == ax * q.x + ay * q.y + az * q.z + aw,
{
    lemma_mul_dist4(va, r0.x * q.x, r0.y * q.y, r0.z * q.z, r0.w);
    lemma_mul_is_associative(va, r0.x, q.x);
    lemma_mul_is_associative(va, r0.y, q.y);
    lemma_mul_is_associative(va, r0.z, q.z);
    lemma_mul_dist4(vb, r1.x * q.x, r1.y * q.y, r1.z * q.z, r1.w);
    lemma_mul_is_associative(vb, r1.x, q.x);
    lemma_mul_is_associative(vb, r1.y, q.y);
    lemma_mul_is_associative(vb, r1.z, q.z);
    lemma_mul_dist4(vc, r2.x * q.x, r2.y * q.y, r2.z * q.z, r2.w);
    lemma_mul_is_associative(vc, r2.x, q.x);
    lemma_mul_is_associative(vc, r2.y, q.y);
    lemma_mul_is_associative(vc, r2.z, q.z);
    lemma_mul_dist4(vd, r3.x * q.x, r3.y * q.y, r3.z * q.z, r3.w);
    lemma_mul_is_associative(vd, r3.x, q.x);
    lemma_mul_is_associative(vd, r3.y, q.y);
    lemma_mul_is_associative(vd, r3.z, q.z);
    lemma_mul_dist4_right(q.x, va * r0.x, vb * r1.x, vc * r2.x, vd * r3.x);
    lemma_mul_dist4_right(q.y, va * r0.y, vb * r1.y, vc * r2.y, vd * r3.y);
    lemma_mul_dist4_right(q.z, va * r0.z, vb * r1.z, vc * r2.z, vd * r3.z);
}

/// Applying a row to a weighted combination of the vertices groups into
/// the row's per-vertex values against the weights.
proof fn lemma_project_combo(
    r: R4,
    a: V3,
    b: V3,
    c: V3,
    d: V3,
    w0: int,
    w1: int,
    w2: int,
    w3: int,
)
    ensures
        r.x * (a.x * w0 + b.x * w1 + c.x * w2 + d.x * w3) + r.y * (a.y * w0 + b.y * w1 + c.y * w2
            + d.y * w3) + r.z * (a.z * w0 + b.z * w1 + c.z * w2 + d.z * w3) + r.w * (w0 + w1 + w2
            + w3) == row_apply(r, a) * w0 + row_apply(r, b) * w1 + row_apply(r, c) * w2
            + row_apply(r, d) * w3,
{
    lemma_mul_dist4(r.x, a.x * w0, b.x * w1, c.x * w2, d.x * w3);
    lemma_mul_is_associative(r.x, a.x, w0);
    lemma_mul_is_associative(r.x, b.x, w1);
    lemma_mul_is_associative(r.x, c.x, w2);
    lemma_mul_is_associative(r.x, d.x, w3);
    lemma_mul_dist4(r.y, a.y * w0, b.y * w1, c.y * w2, d.y * w3);
    lemma_mul_is_associative(r.y, a.y, w0);
    lemma_mul_is_associative(r.y, b.y, w1);
    lemma_mul_is_associative(r.y, c.y, w2);
    lemma_mul_is_associative(r.y, d.y, w3);
    lemma_mul_dist4(r.z, a.z * w0, b.z * w1, c.z * w2, d.z * w3);
    lemma_mul_is_associative(r.z, a.z, w0);
    lemma_mul_is_associative(r.z, b.z, w1);
    lemma_mul_is_associative(r.z, c.z, w2);
    lemma_mul_is_associative(r.z, d.z, w3);
    lemma_mul_dist4(r.w, w0, w1, w2, w3);
    lemma_mul_dist4_right(w0, r.x * a.x, r.y * a.y, r.z * a.z, r.w);
    lemma_mul_dist4_right(w1, r.x * b.x, r.y * b.y, r.z * b.z, r.w);
    lemma_mul_dist4_right(w2, r.x * c.x, r.y * c.y, r.z * c.z, r.w);
    lemma_mul_dist4_right(w3, r.x * d.x, r.y * d.y, r.z * d.z, r.w);
}

/// Round trip: projecting any integer point and reconstructing the
/// position reproduces the point exactly.
pub proof fn lemma_tet_round_trip(t: TetrahedronProjector, q: V3)
    requires
        t.wf(),
    ensures
        ({
            let b = spec_tet_project(t, q);
            let rp = spec_tet_bary_to_point(t, b);
            &&& rp.den == t.den as int
            &&& rp.xn == q.x * rp.den
            &&& rp.yn == q.y * rp.den
            &&& rp.zn == q.z * rp.den
        }),
{
    let b = spec_tet_project(t, q);
    let den = t.den as int;
    lemma_recombine(t.a@.x, t.b@.x, t.c@.x, t.d@.x, t.t0@, t.t1@, t.t2@, t.t3@, q, den, 0, 0, 0);
    lemma_recombine(t.a@.y, t.b@.y, t.c@.y, t.d@.y, t.t0@, t.t1@, t.t2@, t.t3@, q, 0, den, 0, 0);
    lemma_recombine(t.a@.z, t.b@.z, t.c@.z, t.d@.z, t.t0@, t.t1@, t.t2@, t.t3@, q, 0, 0, den, 0);
}

/// Reverse round trip: reconstructing the position of any affine weight
/// vector and projecting it again yields the same weights (as rationals).
pub proof fn lemma_tet_project_round_trip(t: TetrahedronProjector, b: B4)
    requires
        t.wf(),
        b4_valid(b),
    ensures
        b4_equiv(spec_tet_project_rat(t, spec_tet_bary_to_point(t, b)), b),
{
    let rp = spec_tet_bary_to_point(t, b);
    let r = spec_tet_project_rat(t, rp);
    let den = t.den as int;
    assert(rp.den == b.n0 + b.n1 + b.n2 + b.n3);
    lemma_project_combo(t.t0@, t.a@, t.b@, t.c@, t.d@, b.n0, b.n1, b.n2, b.n3);
    lemma_project_combo(t.t1@, t.a@, t.b@, t.c@, t.d@, b.n0, b.n1, b.n2, b.n3);
    lemma_project_combo(t.t2@, t.a@, t.b@, t.c@, t.d@, b.n0, b.n1, b.n2, b.n3);
    lemma_project_combo(t.t3@, t.a@, t.b@, t.c@, t.d@, b.n0, b.n1, b.n2, b.n3);
    assert(r.n0 == den * b.n0 && r.n1 == den * b.n1 && r.n2 == den * b.n2 && r.n3 == den * b.n3);
    assert(r.den == den * b.den && den * b.den > 0) by (nonlinear_arith)
        requires
            r.den == den * b.den,
            den > 0,
            b.den > 0,
    ;
    assert((den * b.n0) * b.den == b.n0 * (den * b.den)) by (nonlinear_arith);
    assert((den * b.n1) * b.den == b.n1 * (den * b.den)) by (nonlinear_arith);
    assert((den * b.n2) * b.den == b.n2 * (den * b.den)) by (nonlinear_arith);
    assert((den * b.n3) * b.den == b.n3 * (den * b.den)) by (nonlinear_arith);
}

/// Querying a construction vertex yields the one-hot weight vector for
/// that vertex.
pub proof fn lemma_tet_vertices_one_hot(t: TetrahedronProjector)
    requires
        t.wf(),
    ensures
        spec_tet_project(t, t.a@) == (B4 {
            n0: t.den as int,
            n1: 0,
            n2: 0,
            n3: 0,
            den: t.den as int,
        }),
        spec_tet_project(t, t.b@) == (B4 {
            n0: 0,
            n1: t.den as int,
            n2: 0,
            n3: 0,
            den: t.den as int,
        }),
        spec_tet_project(t, t.c@) == (B4 {
            n0: 0,
            n1: 0,
            n2: t.den as int,
            n3: 0,
            den: t.den as int,
        }),
        spec_tet_project(t, t.d@) == (B4 {
            n0: 0,
            n1: 0,
            n2: 0,
            n3: t.den as int,
            den: t.den as int,
        }),
{
}

} // verus!
