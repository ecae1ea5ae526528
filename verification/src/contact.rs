//! Contact classification: which bodies rest on floor-like surfaces.
//!
//! A contact names two bodies and one world-frame surface normal, whose
//! direction convention depends on which body is "first". A contact is
//! floor-like for the first body when the angle between `up` and the
//! negated normal is below the angular tolerance, and floor-like for the
//! second body when the angle between `up` and the normal itself is. On
//! the cosine scale, where this crate works, `acos(x) < tol` is
//! `x > cos(tol)` (inverse cosine falls strictly on its domain, and the
//! tolerance lies in `(0, pi]`), so each test is one integer comparison
//! of the clamped dot product against the configured cosine of the
//! tolerance.

use vstd::prelude::*;

use crate::controller::{CharacterController, ControllerEntry};
use crate::math::{clamp_dot, clamp_unit, dot, dot3, is_unit, vec_bounded, vneg, FixVec3, Vec3i,
    ONE};

verus! {

/// One collision contact, produced by the physics step and valid for
/// exactly one tick: the two interacting bodies and the contact normal,
/// a unit vector in the world frame.
#[derive(Clone, Copy, PartialEq, Eq, Structural, Debug)]
pub struct Contact {
    pub body_a: u64,
    pub body_b: u64,
    pub normal: FixVec3,
}

/// The process-wide configuration, immutable during simulation: the
/// world "up" direction (a unit vector) and the cosine of the angular
/// tolerance within which a contact normal counts as floor-like. The
/// tolerance is an angle in `(0, pi]`, so its cosine spans `[-ONE, ONE)`;
/// the host computes it once at startup.
#[derive(Clone, Copy, PartialEq, Eq, Structural, Debug)]
pub struct WorldConfig {
    pub up: FixVec3,
    pub cos_tol: i64,
}

/// The configuration is well formed: `up` stays in the unit box and the
/// cosine in the range a real angle can give it.
pub open spec fn config_valid(cfg: WorldConfig) -> bool {
    &&& vec_bounded(cfg.up@, ONE as int)
    &&& -(ONE as int) <= cfg.cos_tol as int <= ONE as int
}

/// The contact's normal stays in the unit box.
pub open spec fn contact_valid(c: Contact) -> bool {
    vec_bounded(c.normal@, ONE as int)
}

/// The contact is floor-like for the first body: the angle between `up`
/// and the negated normal is below the tolerance, i.e. the clamped dot
/// product lies strictly below `-cos(tol)`, both at the squared scale.
pub open spec fn grounds_first(cfg: WorldConfig, n: Vec3i) -> bool {
    clamp_unit(dot3(cfg.up@, n)) < -(cfg.cos_tol as int * (ONE as int))
}

/// The contact is floor-like for the second body: the angle between `up`
/// and the normal itself is below the tolerance, i.e. the clamped dot
/// product lies strictly above `cos(tol)`, both at the squared scale.
pub open spec fn grounds_second(cfg: WorldConfig, n: Vec3i) -> bool {
    clamp_unit(dot3(cfg.up@, n)) > cfg.cos_tol as int * (ONE as int)
}

/// The contact marks `body` as grounded: `body` takes part in it on a
/// side for which the contact is floor-like.
pub open spec fn contact_grounds(cfg: WorldConfig, c: Contact, body: u64) -> bool {
    ||| grounds_first(cfg, c.normal@) && c.body_a == body
    ||| grounds_second(cfg, c.normal@) && c.body_b == body
}

/// Whether the contact with normal `normal` is floor-like for its first
/// body.
pub fn floor_like_first(cfg: &WorldConfig, normal: &FixVec3) -> (b: bool)
    requires
        config_valid(*cfg),
        vec_bounded(normal@, ONE as int),
    ensures
        b == grounds_first(*cfg, normal@),
{
    let d = clamp_dot(dot(&cfg.up, normal));
    d < -(cfg.cos_tol * ONE)
}

/// Whether the contact with normal `normal` is floor-like for its second
/// body.
pub fn floor_like_second(cfg: &WorldConfig, normal: &FixVec3) -> (b: bool)
    requires
        config_valid(*cfg),
        vec_bounded(normal@, ONE as int),
    ensures
        b == grounds_second(*cfg, normal@),
{
    let d = clamp_dot(dot(&cfg.up, normal));
    d > cfg.cos_tol * ONE
}

/// The entry's body is grounded this tick: it already was when the tick
/// began, or some contact in the tick's batch marks it.
pub open spec fn grounded_this_tick(
    cfg: WorldConfig,
    contacts: Seq<Contact>,
    start: int,
    e: ControllerEntry,
) -> bool {
    ||| e.controller.on_ground
    ||| exists|i: int| start <= i < contacts.len() && contact_grounds(cfg, contacts[i], e.body)
}

/// `e1` is `e0` after classification: the grounded flag recomputed from
/// the tick's contacts, everything else untouched.
pub open spec fn classified_entry(
    cfg: WorldConfig,
    contacts: Seq<Contact>,
    start: int,
    e0: ControllerEntry,
    e1: ControllerEntry,
) -> bool {
    e1 == ControllerEntry {
        controller: CharacterController {
            on_ground: grounded_this_tick(cfg, contacts, start, e0),
            ..e0.controller
        },
        ..e0
    }
}

/// The contact classifier: marks as grounded every controller whose body
/// takes part, on a floor-like side, in some contact of
/// `contacts[start..]`.
///
/// Contacts are processed independently and only ever set the flag, so
/// their order cannot affect the result; a contact neither of whose
/// participants maps to a controller is ignored.
pub fn classify(
    contacts: &Vec<Contact>,
    start: usize,
    controllers: &mut Vec<ControllerEntry>,
    cfg: &WorldConfig,
)
    requires
        config_valid(*cfg),
        start <= contacts@.len(),
        forall|i: int| 0 <= i < contacts@.len() ==> contact_valid(#[trigger] contacts@[i]),
    ensures
        final(controllers)@.len() == old(controllers)@.len(),
        forall|j: int|
            0 <= j < old(controllers)@.len() ==> classified_entry(
                *cfg,
                contacts@,
                start as int,
                old(controllers)@[j],
                #[trigger] final(controllers)@[j],
            ),
{
    let mut out: Vec<ControllerEntry> = Vec::new();
    let n = controllers.len();
    for j in 0..n
        invariant
            n == controllers@.len(),
            controllers@ == old(controllers)@,
            out@.len() == j,
            start <= contacts@.len(),
            config_valid(*cfg),
            forall|i: int| 0 <= i < contacts@.len() ==> contact_valid(#[trigger] contacts@[i]),
            forall|k: int|
                0 <= k < j ==> classified_entry(
                    *cfg,
                    contacts@,
                    start as int,
                    controllers@[k],
                    #[trigger] out@[k],
                ),
    {
        let mut e = controllers[j];
        let mut g = e.controller.on_ground;
        let m = contacts.len();
        let mut i: usize = start;
        while i < m
            invariant
                start <= i <= m,
                m == contacts@.len(),
                start <= contacts@.len(),
                config_valid(*cfg),
                forall|l: int| 0 <= l < contacts@.len() ==> contact_valid(#[trigger] contacts@[l]),
                g == (e.controller.on_ground || exists|k: int|
                    start <= k < i && contact_grounds(*cfg, contacts@[k], e.body)),
            decreases m - i,
        {
            let c = contacts[i];
            let fa = floor_like_first(cfg, &c.normal);
            let fb = floor_like_second(cfg, &c.normal);
            if (fa && c.body_a == e.body) || (fb && c.body_b == e.body) {
                proof {
                    assert(contact_grounds(*cfg, contacts@[i as int], e.body));
                }
                g = true;
            } else {
                proof {
                    assert(!contact_grounds(*cfg, contacts@[i as int], e.body));
                    assert(forall|k: int|
                        start <= k < i + 1 ==> contact_grounds(*cfg, contacts@[k], e.body)
                            == (start <= k < i && contact_grounds(*cfg, contacts@[k], e.body)));
                }
            }
            i += 1;
        }
        e.controller.on_ground = g;
        out.push(e);
    }
    *controllers = out;
}

/// Classification is symmetric in the two bodies: swapping which body is
/// "first" and negating the normal accordingly grounds exactly the same
/// bodies.
pub proof fn lemma_classification_symmetric(
    cfg: WorldConfig,
    c: Contact,
    swapped: Contact,
    body: u64,
)
    requires
        config_valid(cfg),
        contact_valid(c),
        swapped.body_a == c.body_b,
        swapped.body_b == c.body_a,
        swapped.normal@ == vneg(c.normal@),
    ensures
        contact_grounds(cfg, swapped, body) == contact_grounds(cfg, c, body),
{
    assert(dot3(cfg.up@, vneg(c.normal@)) == -dot3(cfg.up@, c.normal@)) by (nonlinear_arith);
}

/// A normal exactly equal to `up` is floor-like for the second body and
/// never the first, for every positive tolerance; a normal exactly equal
/// to `-up` is floor-like for the first body — the other one — and never
/// the second.
pub proof fn lemma_up_normal_floor_like(cfg: WorldConfig)
    requires
        config_valid(cfg),
        is_unit(cfg.up@),
        (cfg.cos_tol as int) < ONE as int,
    ensures
        grounds_second(cfg, cfg.up@),
        !grounds_first(cfg, cfg.up@),
        grounds_first(cfg, vneg(cfg.up@)),
        !grounds_second(cfg, vneg(cfg.up@)),
{
    assert(dot3(cfg.up@, vneg(cfg.up@)) == -dot3(cfg.up@, cfg.up@)) by (nonlinear_arith);
}

/// A normal perpendicular to `up` is never floor-like, for either body,
/// for any tolerance below a right angle (a nonnegative cosine).
pub proof fn lemma_perpendicular_not_floor_like(cfg: WorldConfig, c: Contact, body: u64)
    requires
        dot3(cfg.up@, c.normal@) == 0,
        cfg.cos_tol >= 0,
    ensures
        !grounds_first(cfg, c.normal@),
        !grounds_second(cfg, c.normal@),
        !contact_grounds(cfg, c, body),
{
}

} // verus!
