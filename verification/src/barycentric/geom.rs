//! Shared geometric vocabulary: integer points, spec-level 3-vectors,
//! bounded exact arithmetic helpers, and rational values.

use vstd::prelude::*;

use vstd::arithmetic::mul::{
    lemma_mul_is_associative, lemma_mul_is_distributive_add_other_way,
    lemma_mul_is_distributive_sub, lemma_mul_is_distributive_sub_other_way,
};

verus! {

/// Largest coordinate magnitude the projectors accept.
///
/// Chosen so that every intermediate product of the projection cascade,
/// including the cross-multiplied squared-distance comparisons of the
/// clipping projectors, provably fits in an `i128` (those comparisons
/// grow with the fourteenth power of the coordinate bound).  Callers
/// working in a wider domain, such as eight-bit color channels, scale
/// into this range first: barycentric weights are unchanged by scaling
/// the vertices and the query together.
pub const MAX_COORD: i64 = 64;

/// `MAX_COORD` as a mathematical integer, for use in contracts.
pub open spec fn mc() -> int {
    MAX_COORD as int
}

/// Raised when a projector is built from degenerate geometry
/// (collinear triangle vertices, coplanar tetrahedron vertices).
#[derive(Clone, Copy, PartialEq, Eq, Structural, Debug)]
pub enum GeomError {
    Degenerate,
}

/// A vertex or query position with integer coordinates.
#[derive(Clone, Copy, PartialEq, Eq, Structural, Debug)]
pub struct Point {
    pub x: i64,
    pub y: i64,
    pub z: i64,
}

/// Spec-level 3-vector over the mathematical integers.
pub ghost struct V3 {
    pub x: int,
    pub y: int,
    pub z: int,
}

impl View for Point {
    type V = V3;

    open spec fn view(&self) -> V3 {
        V3 { x: self.x as int, y: self.y as int, z: self.z as int }
    }
}

/// Exec-level 3-vector used for the projectors' precomputed state.
#[derive(Clone, Copy)]
pub struct C3 {
    pub x: i128,
    pub y: i128,
    pub z: i128,
}

impl View for C3 {
    type V = V3;

    open spec fn view(&self) -> V3 {
        V3 { x: self.x as int, y: self.y as int, z: self.z as int }
    }
}

pub open spec fn v3_add(a: V3, b: V3) -> V3 {
    V3 { x: a.x + b.x, y: a.y + b.y, z: a.z + b.z }
}

pub open spec fn v3_sub(a: V3, b: V3) -> V3 {
    V3 { x: a.x - b.x, y: a.y - b.y, z: a.z - b.z }
}

pub open spec fn v3_scale(k: int, a: V3) -> V3 {
    V3 { x: k * a.x, y: k * a.y, z: k * a.z }
}

pub open spec fn dot(a: V3, b: V3) -> int {
    a.x * b.x + a.y * b.y + a.z * b.z
}

pub open spec fn cross(a: V3, b: V3) -> V3 {
    V3 {
        x: a.y * b.z - a.z * b.y,
        y: a.z * b.x - a.x * b.z,
        z: a.x * b.y - a.y * b.x,
    }
}

/// All components of `a` lie within `[-m, m]`.
pub open spec fn v3_bounded(a: V3, m: int) -> bool {
    &&& -m <= a.x <= m
    &&& -m <= a.y <= m
    &&& -m <= a.z <= m
}

/// A point whose coordinates the projectors accept.
pub open spec fn pt_in_range(p: Point) -> bool {
    v3_bounded(p@, mc())
}

/// A position with exact rational coordinates: numerators over a shared
/// positive denominator.
#[derive(Clone, Copy)]
pub struct RatPoint {
    pub xn: i128,
    pub yn: i128,
    pub zn: i128,
    pub den: i128,
}

/// Spec-level mirror of `RatPoint`.
pub ghost struct RP3 {
    pub xn: int,
    pub yn: int,
    pub zn: int,
    pub den: int,
}

impl View for RatPoint {
    type V = RP3;

    open spec fn view(&self) -> RP3 {
        RP3 { xn: self.xn as int, yn: self.yn as int, zn: self.zn as int, den: self.den as int }
    }
}

pub open spec fn rp_nums(rp: RP3) -> V3 {
    V3 { x: rp.xn, y: rp.yn, z: rp.zn }
}

/// The rational point equals the integer position `q` exactly.
pub open spec fn rp_is_point(rp: RP3, q: V3) -> bool {
    &&& rp.den > 0
    &&& rp.xn == q.x * rp.den
    &&& rp.yn == q.y * rp.den
    &&& rp.zn == q.z * rp.den
}

/// Numerator of the squared Euclidean distance between the rational point
/// `rp` and the integer point `q`; the denominator is `rp.den * rp.den`.
pub open spec fn dist_sq_num(rp: RP3, q: V3) -> int {
    let dx = q.x * rp.den - rp.xn;
    let dy = q.y * rp.den - rp.yn;
    let dz = q.z * rp.den - rp.zn;
    dx * dx + dy * dy + dz * dz
}

/// Signed product bound: factors bounded in magnitude give a bounded product.
pub proof fn lemma_mul_bound(a: int, b: int, ab: int, bb: int) by (nonlinear_arith)
    requires
        -ab <= a <= ab,
        -bb <= b <= bb,
    ensures
        -(ab * bb) <= a * b <= ab * bb,
{
}

/// Bounded multiplication: the caller supplies ghost magnitude bounds that
/// make the product fit in an `i128`.
pub(crate) fn mul_bd(a: i128, b: i128, Ghost(ab): Ghost<int>, Ghost(bb): Ghost<int>) -> (r: i128)
    requires
        -ab <= a as int <= ab,
        -bb <= b as int <= bb,
        ab * bb <= i128::MAX as int,
    ensures
        r as int == a as int * b as int,
        -(ab * bb) <= r as int <= ab * bb,
{
    proof {
        lemma_mul_bound(a as int, b as int, ab, bb);
    }
    a * b
}

/// Bounded dot product of two exec vectors.
pub(crate) fn dot3(a: &C3, b: &C3, Ghost(ab): Ghost<int>, Ghost(bb): Ghost<int>) -> (r: i128)
    requires
        v3_bounded(a@, ab),
        v3_bounded(b@, bb),
        3 * (ab * bb) <= i128::MAX as int,
    ensures
        r as int == dot(a@, b@),
        -(3 * (ab * bb)) <= r as int <= 3 * (ab * bb),
{
    let xx = mul_bd(a.x, b.x, Ghost(ab), Ghost(bb));
    let yy = mul_bd(a.y, b.y, Ghost(ab), Ghost(bb));
    let zz = mul_bd(a.z, b.z, Ghost(ab), Ghost(bb));
    xx + yy + zz
}

/// Bounded cross product of two exec vectors.
pub(crate) fn cross3(a: &C3, b: &C3, Ghost(ab): Ghost<int>, Ghost(bb): Ghost<int>) -> (r: C3)
    requires
        v3_bounded(a@, ab),
        v3_bounded(b@, bb),
        2 * (ab * bb) <= i128::MAX as int,
    ensures
        r@ == cross(a@, b@),
        v3_bounded(r@, 2 * (ab * bb)),
{
    let x = mul_bd(a.y, b.z, Ghost(ab), Ghost(bb)) - mul_bd(a.z, b.y, Ghost(ab), Ghost(bb));
    let y = mul_bd(a.z, b.x, Ghost(ab), Ghost(bb)) - mul_bd(a.x, b.z, Ghost(ab), Ghost(bb));
    let z = mul_bd(a.x, b.y, Ghost(ab), Ghost(bb)) - mul_bd(a.y, b.x, Ghost(ab), Ghost(bb));
    C3 { x, y, z }
}

/// Componentwise difference of two exec vectors.
pub(crate) fn sub3(a: &C3, b: &C3, Ghost(ab): Ghost<int>, Ghost(bb): Ghost<int>) -> (r: C3)
    requires
        v3_bounded(a@, ab),
        v3_bounded(b@, bb),
        ab + bb <= i128::MAX as int,
    ensures
        r@ == v3_sub(a@, b@),
        v3_bounded(r@, ab + bb),
{
    C3 { x: a.x - b.x, y: a.y - b.y, z: a.z - b.z }
}

/// Strict comparison of two positive-denominator fractions:
/// `n1 / d1 < n2 / d2`, decided exactly by cross multiplication.
pub(crate) fn frac_lt(
    n1: i128,
    d1: i128,
    n2: i128,
    d2: i128,
    Ghost(bn1): Ghost<int>,
    Ghost(bd1): Ghost<int>,
    Ghost(bn2): Ghost<int>,
    Ghost(bd2): Ghost<int>,
) -> (r: bool)
    requires
        d1 > 0,
        d2 > 0,
        -bn1 <= n1 as int <= bn1,
        -bn2 <= n2 as int <= bn2,
        d1 as int <= bd1,
        d2 as int <= bd2,
        bn1 * bd2 <= i128::MAX as int,
        bn2 * bd1 <= i128::MAX as int,
    ensures
        r <==> (n1 as int * d2 as int) < (n2 as int * d1 as int),
{
    let lhs = mul_bd(n1, d2, Ghost(bn1), Ghost(bd2));
    let rhs = mul_bd(n2, d1, Ghost(bn2), Ghost(bd1));
    lhs < rhs
}

/// An exact non-negative rational, numerator over positive denominator;
/// used for squared distances.
#[derive(Clone, Copy)]
pub struct Ratio {
    pub num: i128,
    pub den: i128,
}

/// Spec-level mirror of `Ratio`.
pub ghost struct RatioV {
    pub num: int,
    pub den: int,
}

impl View for Ratio {
    type V = RatioV;

    open spec fn view(&self) -> RatioV {
        RatioV { num: self.num as int, den: self.den as int }
    }
}

/// The rational point's numerators are bounded by `mn` and its
/// denominator by `md`.
pub open spec fn rp_bounded(rp: RP3, mn: int, md: int) -> bool {
    &&& -mn <= rp.xn <= mn
    &&& -mn <= rp.yn <= mn
    &&& -mn <= rp.zn <= mn
    &&& 0 < rp.den <= md
}

/// Squared Euclidean distance between a rational point and an integer
/// point, as the exact ratio `dist_sq_num(rp, q) / (rp.den * rp.den)`.
pub(crate) fn dist_sq_ratio(rp: &RatPoint, pt: &Point, Ghost(mn): Ghost<int>, Ghost(md): Ghost<int>) -> (r: Ratio)
    requires
        rp_bounded(rp@, mn, md),
        pt_in_range(*pt),
        3 * ((mc() * md + mn) * (mc() * md + mn)) <= i128::MAX as int,
        md * md <= i128::MAX as int,
        mc() * md + mn <= i128::MAX as int,
    ensures
        r.num as int == dist_sq_num(rp@, pt@),
        r.den as int == rp@.den * rp@.den,
        0 <= r.num as int <= 3 * ((mc() * md + mn) * (mc() * md + mn)),
        0 < r.den as int <= md * md,
{
    let ghost dm = mc() * md + mn;
    proof {
        assert(mc() * md >= 0 && mn >= 0) by (nonlinear_arith)
            requires
                md > 0,
                mc() == 64,
                -mn <= rp@.xn <= mn,
        ;
        assert(dm * dm <= 3 * (dm * dm)) by (nonlinear_arith);
    }
    let dx = mul_bd(pt.x as i128, rp.den, Ghost(mc()), Ghost(md)) - rp.xn;
    let dy = mul_bd(pt.y as i128, rp.den, Ghost(mc()), Ghost(md)) - rp.yn;
    let dz = mul_bd(pt.z as i128, rp.den, Ghost(mc()), Ghost(md)) - rp.zn;
    let sx = mul_bd(dx, dx, Ghost(dm), Ghost(dm));
    let sy = mul_bd(dy, dy, Ghost(dm), Ghost(dm));
    let sz = mul_bd(dz, dz, Ghost(dm), Ghost(dm));
    proof {
        assert(sx as int >= 0 && sy as int >= 0 && sz as int >= 0) by (nonlinear_arith)
            requires
                sx as int == dx as int * dx as int,
                sy as int == dy as int * dy as int,
                sz as int == dz as int * dz as int,
        ;
    }
    let den = mul_bd(rp.den, rp.den, Ghost(md), Ghost(md));
    proof {
        assert(den as int > 0) by (nonlinear_arith)
            requires
                den as int == rp.den as int * rp.den as int,
                rp.den as int > 0,
        ;
    }
    Ratio { num: sx + sy + sz, den }
}

/// Componentwise negation.
pub open spec fn v3_neg(a: V3) -> V3 {
    V3 { x: -a.x, y: -a.y, z: -a.z }
}

/// Componentwise negation of an exec vector.
pub(crate) fn neg3(a: &C3, Ghost(ab): Ghost<int>) -> (r: C3)
    requires
        v3_bounded(a@, ab),
        ab < i128::MAX as int,
    ensures
        r@ == v3_neg(a@),
        v3_bounded(r@, ab),
{
    C3 { x: -a.x, y: -a.y, z: -a.z }
}

/// Bounded sum of four products.
pub(crate) fn dot4(
    p0: i128,
    q0: i128,
    p1: i128,
    q1: i128,
    p2: i128,
    q2: i128,
    p3: i128,
    q3: i128,
    Ghost(bp): Ghost<int>,
    Ghost(bq): Ghost<int>,
) -> (r: i128)
    requires
        -bp <= p0 as int <= bp,
        -bp <= p1 as int <= bp,
        -bp <= p2 as int <= bp,
        -bp <= p3 as int <= bp,
        -bq <= q0 as int <= bq,
        -bq <= q1 as int <= bq,
        -bq <= q2 as int <= bq,
        -bq <= q3 as int <= bq,
        4 * (bp * bq) <= i128::MAX as int,
    ensures
        r as int == p0 as int * q0 as int + p1 as int * q1 as int + p2 as int * q2 as int
            + p3 as int * q3 as int,
        -(4 * (bp * bq)) <= r as int <= 4 * (bp * bq),
{
    mul_bd(p0, q0, Ghost(bp), Ghost(bq)) + mul_bd(p1, q1, Ghost(bp), Ghost(bq)) + mul_bd(
        p2,
        q2,
        Ghost(bp),
        Ghost(bq),
    ) + mul_bd(p3, q3, Ghost(bp), Ghost(bq))
}

/// The exec point `p` converted to an exec vector.
pub(crate) fn pt_c3(p: &Point) -> (r: C3)
    ensures
        r@ == p@,
        v3_bounded(r@, mc()) <== pt_in_range(*p),
{
    C3 { x: p.x as i128, y: p.y as i128, z: p.z as i128 }
}

// ---------------------------------------------------------------------------
// Spec-level vector algebra used by the round-trip and clipping laws.
// ---------------------------------------------------------------------------

/// Dot distributes over vector addition on the left.
pub proof fn lemma_dot_add_left(a: V3, b: V3, c: V3)
    ensures
        dot(v3_add(a, b), c) == dot(a, c) + dot(b, c),
{
    assert((a.x + b.x) * c.x == a.x * c.x + b.x * c.x) by (nonlinear_arith);
    assert((a.y + b.y) * c.y == a.y * c.y + b.y * c.y) by (nonlinear_arith);
    assert((a.z + b.z) * c.z == a.z * c.z + b.z * c.z) by (nonlinear_arith);
}

/// Dot with a scaled vector pulls the scale out.
pub proof fn lemma_dot_scale_left(k: int, a: V3, b: V3)
    ensures
        dot(v3_scale(k, a), b) == k * dot(a, b),
{
    let px = a.x * b.x;
    let py = a.y * b.y;
    let pz = a.z * b.z;
    assert((k * a.x) * b.x == k * px) by (nonlinear_arith)
        requires px == a.x * b.x;
    assert((k * a.y) * b.y == k * py) by (nonlinear_arith)
        requires py == a.y * b.y;
    assert((k * a.z) * b.z == k * pz) by (nonlinear_arith)
        requires pz == a.z * b.z;
    assert(k * (px + py + pz) == k * px + k * py + k * pz) by (nonlinear_arith);
}

/// Cross distributes over vector addition on the left.
pub proof fn lemma_cross_add_left(a: V3, b: V3, c: V3)
    ensures
        cross(v3_add(a, b), c) == v3_add(cross(a, c), cross(b, c)),
{
    assert((a.y + b.y) * c.z - (a.z + b.z) * c.y
        == (a.y * c.z - a.z * c.y) + (b.y * c.z - b.z * c.y)) by (nonlinear_arith);
    assert((a.z + b.z) * c.x - (a.x + b.x) * c.z
        == (a.z * c.x - a.x * c.z) + (b.z * c.x - b.x * c.z)) by (nonlinear_arith);
    assert((a.x + b.x) * c.y - (a.y + b.y) * c.x
        == (a.x * c.y - a.y * c.x) + (b.x * c.y - b.y * c.x)) by (nonlinear_arith);
}

/// Cross with a scaled vector pulls the scale out.
pub proof fn lemma_cross_scale_left(k: int, a: V3, b: V3)
    ensures
        cross(v3_scale(k, a), b) == v3_scale(k, cross(a, b)),
{
    assert((k * a.y) * b.z - (k * a.z) * b.y == k * (a.y * b.z - a.z * b.y)) by (nonlinear_arith);
    assert((k * a.z) * b.x - (k * a.x) * b.z == k * (a.z * b.x - a.x * b.z)) by (nonlinear_arith);
    assert((k * a.x) * b.y - (k * a.y) * b.x == k * (a.x * b.y - a.y * b.x)) by (nonlinear_arith);
}

/// Dot with a scaled vector on the right pulls the scale out.
pub proof fn lemma_dot_scale_right(k: int, a: V3, b: V3)
    ensures
        dot(a, v3_scale(k, b)) == k * dot(a, b),
{
    let px = a.x * b.x;
    let py = a.y * b.y;
    let pz = a.z * b.z;
    assert(a.x * (k * b.x) == k * px) by (nonlinear_arith)
        requires px == a.x * b.x;
    assert(a.y * (k * b.y) == k * py) by (nonlinear_arith)
        requires py == a.y * b.y;
    assert(a.z * (k * b.z) == k * pz) by (nonlinear_arith)
        requires pz == a.z * b.z;
    assert(k * (px + py + pz) == k * px + k * py + k * pz) by (nonlinear_arith);
}

/// Cross distributes over vector addition on the right.
pub proof fn lemma_cross_add_right(a: V3, b: V3, c: V3)
    ensures
        cross(a, v3_add(b, c)) == v3_add(cross(a, b), cross(a, c)),
{
    assert(a.y * (b.z + c.z) - a.z * (b.y + c.y)
        == (a.y * b.z - a.z * b.y) + (a.y * c.z - a.z * c.y)) by (nonlinear_arith);
    assert(a.z * (b.x + c.x) - a.x * (b.z + c.z)
        == (a.z * b.x - a.x * b.z) + (a.z * c.x - a.x * c.z)) by (nonlinear_arith);
    assert(a.x * (b.y + c.y) - a.y * (b.x + c.x)
        == (a.x * b.y - a.y * b.x) + (a.x * c.y - a.y * c.x)) by (nonlinear_arith);
}

/// Cross with a scaled vector on the right pulls the scale out.
pub proof fn lemma_cross_scale_right(k: int, a: V3, b: V3)
    ensures
        cross(a, v3_scale(k, b)) == v3_scale(k, cross(a, b)),
{
    assert(a.y * (k * b.z) - a.z * (k * b.y) == k * (a.y * b.z - a.z * b.y)) by (nonlinear_arith);
    assert(a.z * (k * b.x) - a.x * (k * b.z) == k * (a.z * b.x - a.x * b.z)) by (nonlinear_arith);
    assert(a.x * (k * b.y) - a.y * (k * b.x) == k * (a.x * b.y - a.y * b.x)) by (nonlinear_arith);
}

/// The cross product of a vector with itself vanishes.
pub proof fn lemma_cross_self(a: V3)
    ensures
        cross(a, a) == (V3 { x: 0, y: 0, z: 0 }),
{
    assert(a.y * a.z - a.z * a.y == 0) by (nonlinear_arith);
    assert(a.z * a.x - a.x * a.z == 0) by (nonlinear_arith);
    assert(a.x * a.y - a.y * a.x == 0) by (nonlinear_arith);
}

/// Dot is symmetric.
pub proof fn lemma_dot_comm(a: V3, b: V3)
    ensures
        dot(a, b) == dot(b, a),
{
    assert(a.x * b.x == b.x * a.x) by (nonlinear_arith);
    assert(a.y * b.y == b.y * a.y) by (nonlinear_arith);
    assert(a.z * b.z == b.z * a.z) by (nonlinear_arith);
}

/// Dot distributes over vector subtraction on the right.
pub proof fn lemma_dot_sub_right(a: V3, b: V3, c: V3)
    ensures
        dot(a, v3_sub(b, c)) == dot(a, b) - dot(a, c),
{
    assert(a.x * (b.x - c.x) == a.x * b.x - a.x * c.x) by (nonlinear_arith);
    assert(a.y * (b.y - c.y) == a.y * b.y - a.y * c.y) by (nonlinear_arith);
    assert(a.z * (b.z - c.z) == a.z * b.z - a.z * c.z) by (nonlinear_arith);
}

/// Cross is antisymmetric.
pub proof fn lemma_cross_antisym(a: V3, b: V3)
    ensures
        cross(a, b) == v3_neg(cross(b, a)),
{
    assert(a.y * b.z - a.z * b.y == -(b.y * a.z - b.z * a.y)) by (nonlinear_arith);
    assert(a.z * b.x - a.x * b.z == -(b.z * a.x - b.x * a.z)) by (nonlinear_arith);
    assert(a.x * b.y - a.y * b.x == -(b.x * a.y - b.y * a.x)) by (nonlinear_arith);
}

/// Cross distributes over vector subtraction on the right.
pub proof fn lemma_cross_sub_right(a: V3, b: V3, c: V3)
    ensures
        cross(a, v3_sub(b, c)) == v3_sub(cross(a, b), cross(a, c)),
{
    assert(a.y * (b.z - c.z) - a.z * (b.y - c.y)
        == (a.y * b.z - a.z * b.y) - (a.y * c.z - a.z * c.y)) by (nonlinear_arith);
    assert(a.z * (b.x - c.x) - a.x * (b.z - c.z)
        == (a.z * b.x - a.x * b.z) - (a.z * c.x - a.x * c.z)) by (nonlinear_arith);
    assert(a.x * (b.y - c.y) - a.y * (b.x - c.x)
        == (a.x * b.y - a.y * b.x) - (a.x * c.y - a.y * c.x)) by (nonlinear_arith);
}

/// Multiplication distributes over a three-term sum, from the right.
proof fn lemma_sum3_mul(k: int, s1: int, s2: int, s3: int)
    ensures
        (s1 + s2 + s3) * k == s1 * k + s2 * k + s3 * k,
{
    lemma_mul_is_distributive_add_other_way(k, s1 + s2, s3);
    lemma_mul_is_distributive_add_other_way(k, s1, s2);
}

/// The scalar triple product is invariant under cycling its factors.
pub proof fn lemma_scalar_triple_cyclic(a: V3, b: V3, c: V3)
    ensures
        dot(cross(a, b), c) == dot(a, cross(b, c)),
{
    lemma_mul_is_distributive_sub_other_way(c.x, a.y * b.z, a.z * b.y);
    lemma_mul_is_distributive_sub_other_way(c.y, a.z * b.x, a.x * b.z);
    lemma_mul_is_distributive_sub_other_way(c.z, a.x * b.y, a.y * b.x);
    lemma_mul_is_distributive_sub(a.x, b.y * c.z, b.z * c.y);
    lemma_mul_is_distributive_sub(a.y, b.z * c.x, b.x * c.z);
    lemma_mul_is_distributive_sub(a.z, b.x * c.y, b.y * c.x);
    lemma_mul_is_associative(a.x, b.y, c.z);
    lemma_mul_is_associative(a.x, b.z, c.y);
    lemma_mul_is_associative(a.y, b.z, c.x);
    lemma_mul_is_associative(a.y, b.x, c.z);
    lemma_mul_is_associative(a.z, b.x, c.y);
    lemma_mul_is_associative(a.z, b.y, c.x);
}

/// One coordinate of the vector triple product, over scalars.
proof fn lemma_triple_coord(
    ax: int,
    ay: int,
    az: int,
    bx: int,
    by: int,
    bz: int,
    cx: int,
    cy: int,
    cz: int,
)
    ensures
        ay * (bx * cy - by * cx) - az * (bz * cx - bx * cz) == (ax * cx + ay * cy + az * cz) * bx
            - (ax * bx + ay * by + az * bz) * cx,
{
    lemma_mul_is_distributive_sub(ay, bx * cy, by * cx);
    lemma_mul_is_distributive_sub(az, bz * cx, bx * cz);
    lemma_sum3_mul(bx, ax * cx, ay * cy, az * cz);
    lemma_sum3_mul(cx, ax * bx, ay * by, az * bz);
    assert((ax * cx) * bx == (ax * bx) * cx) by (nonlinear_arith);
    assert(ay * (bx * cy) == (ay * cy) * bx) by (nonlinear_arith);
    assert(az * (bx * cz) == (az * cz) * bx) by (nonlinear_arith);
    lemma_mul_is_associative(ay, by, cx);
    lemma_mul_is_associative(az, bz, cx);
}

/// The vector triple product: `a x (b x c) == b (a . c) - c (a . b)`.
pub proof fn lemma_triple_product(a: V3, b: V3, c: V3)
    ensures
        cross(a, cross(b, c)) == v3_sub(v3_scale(dot(a, c), b), v3_scale(dot(a, b), c)),
{
    lemma_triple_coord(a.x, a.y, a.z, b.x, b.y, b.z, c.x, c.y, c.z);
    lemma_triple_coord(a.y, a.z, a.x, b.y, b.z, b.x, c.y, c.z, c.x);
    lemma_triple_coord(a.z, a.x, a.y, b.z, b.x, b.y, c.z, c.x, c.y);
}

/// A dot product of a vector with itself is non-negative.
pub proof fn lemma_dot_self_nonneg(a: V3)
    ensures
        dot(a, a) >= 0,
{
    assert(a.x * a.x + a.y * a.y + a.z * a.z >= 0) by (nonlinear_arith);
}

} // verus!
