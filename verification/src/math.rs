//! Fixed-point vectors and quaternions.
//!
//! All geometry in this crate is carried as integers scaled by [`ONE`]:
//! an `i64` component `c` stands for the real number `c / ONE`. Unit
//! vectors and unit quaternions therefore have every component in
//! `[-ONE, ONE]`, which is what the overflow proofs lean on.

use vstd::prelude::*;

verus! {

/// The fixed-point scale: the integer that stands for the real number one.
pub const ONE: i64 = 65536;

/// The fixed-point representation of one half, the magnitude of a
/// directional movement impulse.
pub const HALF: i64 = 32768;

/// The dot product of two vectors whose components do not exceed [`ONE`]
/// in magnitude never leaves `[-UNIT_SQ, UNIT_SQ]` once clamped; this is
/// the squared scale, the fixed-point representation of one at the dot
/// product's scale.
pub const UNIT_SQ: i64 = 4294967296;

/// The mathematical model of a vector: three unbounded integers at the
/// fixed-point scale.
pub struct Vec3i {
    pub x: int,
    pub y: int,
    pub z: int,
}

/// The mathematical model of a quaternion: four unbounded integers at the
/// fixed-point scale.
pub struct Quat4i {
    pub x: int,
    pub y: int,
    pub z: int,
    pub w: int,
}

/// A fixed-point three-component vector.
#[derive(Clone, Copy, PartialEq, Eq, Structural, Debug)]
pub struct FixVec3 {
    pub x: i64,
    pub y: i64,
    pub z: i64,
}

/// A fixed-point quaternion, `w` the scalar part.
#[derive(Clone, Copy, PartialEq, Eq, Structural, Debug)]
pub struct FixQuat {
    pub x: i64,
    pub y: i64,
    pub z: i64,
    pub w: i64,
}

impl View for FixVec3 {
    type V = Vec3i;

    open spec fn view(&self) -> Vec3i {
        Vec3i { x: self.x as int, y: self.y as int, z: self.z as int }
    }
}

impl View for FixQuat {
    type V = Quat4i;

    open spec fn view(&self) -> Quat4i {
        Quat4i { x: self.x as int, y: self.y as int, z: self.z as int, w: self.w as int }
    }
}

/// Every component of `v` lies in `[-b, b]`.
pub open spec fn vec_bounded(v: Vec3i, b: int) -> bool {
    &&& -b <= v.x <= b
    &&& -b <= v.y <= b
    &&& -b <= v.z <= b
}

/// Every component of `q` lies in `[-b, b]`.
pub open spec fn quat_bounded(q: Quat4i, b: int) -> bool {
    &&& -b <= q.x <= b
    &&& -b <= q.y <= b
    &&& -b <= q.z <= b
    &&& -b <= q.w <= b
}

/// The dot product, at the squared fixed-point scale.
pub open spec fn dot3(a: Vec3i, b: Vec3i) -> int {
    a.x * b.x + a.y * b.y + a.z * b.z
}

/// `v`, negated.
pub open spec fn vneg(v: Vec3i) -> Vec3i {
    Vec3i { x: -v.x, y: -v.y, z: -v.z }
}

/// The componentwise sum of two vectors.
pub open spec fn vadd(a: Vec3i, b: Vec3i) -> Vec3i {
    Vec3i { x: a.x + b.x, y: a.y + b.y, z: a.z + b.z }
}

/// `v` is a unit vector in the fixed-point model: its squared length is
/// exactly the representation of one.
pub open spec fn is_unit(v: Vec3i) -> bool {
    dot3(v, v) == (ONE as int) * (ONE as int)
}

/// The product of two bounded integers is bounded by the product of the
/// bounds.
proof fn lemma_mul_bound(a: int, b: int, ma: int, mb: int)
    requires
        0 <= ma,
        0 <= mb,
        -ma <= a <= ma,
        -mb <= b <= mb,
    ensures
        -(ma * mb) <= a * b <= ma * mb,
{
    assert(-(ma * mb) <= a * b <= ma * mb) by (nonlinear_arith)
        requires
            0 <= ma,
            0 <= mb,
            -ma <= a <= ma,
            -mb <= b <= mb,
    ;
}

/// An integer within `b` fixed-point units keeps that bound when rescaled.
proof fn lemma_div_one_bound(x: int, b: int)
    requires
        0 <= b,
        -(b * 65536) <= x <= b * 65536,
    ensures
        -b <= x / 65536 <= b,
{
    vstd::arithmetic::div_mod::lemma_div_is_ordered(x, b * 65536, 65536);
    vstd::arithmetic::div_mod::lemma_div_is_ordered(-(b * 65536), x, 65536);
    vstd::arithmetic::div_mod::lemma_div_multiples_vanish(b, 65536);
    vstd::arithmetic::div_mod::lemma_div_multiples_vanish(-b, 65536);
}

/// The dot product of two componentwise-bounded vectors.
pub fn dot(a: &FixVec3, b: &FixVec3) -> (r: i64)
    requires
        vec_bounded(a@, ONE as int),
        vec_bounded(b@, ONE as int),
    ensures
        r as int == dot3(a@, b@),
        -3 * (ONE as int) * (ONE as int) <= r as int <= 3 * (ONE as int) * (ONE as int),
{
    proof {
        lemma_mul_bound(a@.x, b@.x, ONE as int, ONE as int);
        lemma_mul_bound(a@.y, b@.y, ONE as int, ONE as int);
        lemma_mul_bound(a@.z, b@.z, ONE as int, ONE as int);
    }
    a.x * b.x + a.y * b.y + a.z * b.z
}

/// `d`, clamped to the dot-product range a pair of unit vectors can span.
pub open spec fn clamp_unit(d: int) -> int {
    if d < -(UNIT_SQ as int) {
        -(UNIT_SQ as int)
    } else if d > UNIT_SQ as int {
        UNIT_SQ as int
    } else {
        d
    }
}

/// Clamps a dot product into `[-UNIT_SQ, UNIT_SQ]`, the domain a pair of
/// exactly-unit vectors can span; inputs that overshoot it (the vectors
/// were only approximately unit) are pulled back to the nearest endpoint.
pub fn clamp_dot(d: i64) -> (r: i64)
    ensures
        r as int == clamp_unit(d as int),
{
    if d < -UNIT_SQ {
        -UNIT_SQ
    } else if d > UNIT_SQ {
        UNIT_SQ
    } else {
        d
    }
}

/// Floor division by the fixed-point scale, rescaling the product of two
/// fixed-point values back to a single scale.
pub fn div_one(a: i64) -> (r: i64)
    requires
        -0x4000_0000_0000_0000 <= a <= 0x4000_0000_0000_0000,
    ensures
        r as int == a as int / (ONE as int),
{
    if a >= 0 {
        ((a as u64) / 65536) as i64
    } else {
        let m: u64 = (-a) as u64;
        let q: u64 = (m + 65535) / 65536;
        proof {
            let mi = m as int;
            let qi = (mi + 65535) / 65536;
            vstd::arithmetic::div_mod::lemma_fundamental_div_mod(mi + 65535, 65536);
            vstd::arithmetic::div_mod::lemma_mod_bound(mi + 65535, 65536);
            let r1 = (mi + 65535) % 65536;
            vstd::arithmetic::div_mod::lemma_fundamental_div_mod_converse(
                -mi,
                65536,
                -qi,
                65535 - r1,
            );
            vstd::arithmetic::div_mod::lemma_div_pos_is_pos(mi + 65535, 65536);
        }
        -((q as i64))
    }
}

/// The vector part of a quaternion.
pub open spec fn qvec(q: Quat4i) -> Vec3i {
    Vec3i { x: q.x, y: q.y, z: q.z }
}

/// The cross product, at the squared fixed-point scale.
pub open spec fn cross(a: Vec3i, b: Vec3i) -> Vec3i {
    Vec3i {
        x: a.y * b.z - a.z * b.y,
        y: a.z * b.x - a.x * b.z,
        z: a.x * b.y - a.y * b.x,
    }
}

/// Every component multiplied by two.
pub open spec fn vdouble(v: Vec3i) -> Vec3i {
    Vec3i { x: 2 * v.x, y: 2 * v.y, z: 2 * v.z }
}

/// Every component multiplied by `k`.
pub open spec fn vscale(v: Vec3i, k: int) -> Vec3i {
    Vec3i { x: k * v.x, y: k * v.y, z: k * v.z }
}

/// Every component floor-divided by the fixed-point scale.
pub open spec fn vdiv_one(v: Vec3i) -> Vec3i {
    Vec3i { x: v.x / (ONE as int), y: v.y / (ONE as int), z: v.z / (ONE as int) }
}

/// A vector rotated by a unit quaternion, all at the fixed-point scale:
/// with `t = 2 (q_vec x v) / ONE`, the result is
/// `v + (q_w t) / ONE + (q_vec x t) / ONE`, each division a floor
/// division that rescales a product of two fixed-point factors.
pub open spec fn rotate_spec(q: Quat4i, v: Vec3i) -> Vec3i {
    let t = vdiv_one(vdouble(cross(qvec(q), v)));
    vadd(vadd(v, vdiv_one(vscale(t, q.w))), vdiv_one(cross(qvec(q), t)))
}

/// The cross product of a unit-bounded vector with a bounded one.
fn cross_vec(a: &FixVec3, b: &FixVec3, bb: Ghost<int>) -> (r: FixVec3)
    requires
        0 <= bb@ <= 0x100_0000_0000,
        vec_bounded(a@, ONE as int),
        vec_bounded(b@, bb@),
    ensures
        r@ == cross(a@, b@),
        vec_bounded(r@, 2 * (ONE as int) * bb@),
{
    proof {
        lemma_mul_bound(a@.x, b@.y, ONE as int, bb@);
        lemma_mul_bound(a@.x, b@.z, ONE as int, bb@);
        lemma_mul_bound(a@.y, b@.x, ONE as int, bb@);
        lemma_mul_bound(a@.y, b@.z, ONE as int, bb@);
        lemma_mul_bound(a@.z, b@.x, ONE as int, bb@);
        lemma_mul_bound(a@.z, b@.y, ONE as int, bb@);
        assert(2 * (ONE as int) * bb@ == (ONE as int) * bb@ + (ONE as int) * bb@)
            by (nonlinear_arith);
    }
    FixVec3 {
        x: a.y * b.z - a.z * b.y,
        y: a.z * b.x - a.x * b.z,
        z: a.x * b.y - a.y * b.x,
    }
}

/// Every component rescaled by a floor division by the fixed-point scale.
fn div_one_vec(v: &FixVec3) -> (r: FixVec3)
    requires
        vec_bounded(v@, 0x4000_0000_0000_0000),
    ensures
        r@ == vdiv_one(v@),
{
    FixVec3 { x: div_one(v.x), y: div_one(v.y), z: div_one(v.z) }
}

/// Rotates `v` by the unit quaternion `q`, both fixed-point.
pub fn rotate(q: &FixQuat, v: &FixVec3) -> (r: FixVec3)
    requires
        quat_bounded(q@, ONE as int),
        vec_bounded(v@, ONE as int),
    ensures
        r@ == rotate_spec(q@, v@),
{
    let qv = FixVec3 { x: q.x, y: q.y, z: q.z };
    let c1 = cross_vec(&qv, v, Ghost(ONE as int));
    let t = div_one_vec(&FixVec3 { x: 2 * c1.x, y: 2 * c1.y, z: 2 * c1.z });
    proof {
        lemma_div_one_bound(2 * c1@.x, 4 * (ONE as int));
        lemma_div_one_bound(2 * c1@.y, 4 * (ONE as int));
        lemma_div_one_bound(2 * c1@.z, 4 * (ONE as int));
        lemma_mul_bound(q@.w, t@.x, ONE as int, 4 * (ONE as int));
        lemma_mul_bound(q@.w, t@.y, ONE as int, 4 * (ONE as int));
        lemma_mul_bound(q@.w, t@.z, ONE as int, 4 * (ONE as int));
    }
    let wt = div_one_vec(&FixVec3 { x: q.w * t.x, y: q.w * t.y, z: q.w * t.z });
    proof {
        lemma_div_one_bound(q@.w * t@.x, 4 * (ONE as int));
        lemma_div_one_bound(q@.w * t@.y, 4 * (ONE as int));
        lemma_div_one_bound(q@.w * t@.z, 4 * (ONE as int));
    }
    let c2 = cross_vec(&qv, &t, Ghost(4 * (ONE as int)));
    let d2 = div_one_vec(&c2);
    proof {
        lemma_div_one_bound(c2@.x, 8 * (ONE as int));
        lemma_div_one_bound(c2@.y, 8 * (ONE as int));
        lemma_div_one_bound(c2@.z, 8 * (ONE as int));
    }
    FixVec3 { x: v.x + wt.x + d2.x, y: v.y + wt.y + d2.y, z: v.z + wt.z + d2.z }
}

} // verus!
