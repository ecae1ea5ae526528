//! Controllers, input, and the per-tick controller update.
//!
//! The update consumes the grounded flag written by the contact
//! classifier earlier in the same tick, latches and fires jump requests,
//! turns held directional keys into impulses in the body's frame, resets
//! the grounded flag, and emits the camera transform that follows the
//! body. Bodies and cameras are owned by outside collaborators, so the
//! update never mutates them directly: it returns [`Command`] values for
//! the caller to deliver.

use vstd::prelude::*;

use crate::math::{
    quat_bounded, rotate, rotate_spec, vadd, FixQuat, FixVec3, Quat4i, Vec3i, HALF, ONE,
};

verus! {

/// The per-tick read view of a body owned by the physics collaborator.
#[derive(Clone, Copy, PartialEq, Eq, Structural, Debug)]
pub struct BodyState {
    pub position: FixVec3,
    pub rotation: FixQuat,
}

/// The upward force issued when a jump fires, fixed-point.
pub const JUMP_FORCE_Y: i64 = 32768000;

/// One player-controlled body's controller state.
#[derive(Clone, Copy, PartialEq, Eq, Structural, Debug)]
pub struct CharacterController {
    /// True while a floor-like contact has been observed for the body in
    /// the current tick's classification pass; reset to false at the end
    /// of every update pass.
    pub on_ground: bool,
    /// The edge-triggered jump latch: set the instant a jump press is
    /// seen, cleared the instant a jump force is applied.
    pub jump_requested: bool,
    /// A non-owning handle to the camera entity this controller drives.
    pub camera: u64,
}

impl CharacterController {
    /// A fresh controller driving the given camera: airborne, no jump
    /// pending.
    pub fn new(camera: u64) -> (c: CharacterController)
        ensures
            c.on_ground == false,
            c.jump_requested == false,
            c.camera == camera,
    {
        CharacterController { on_ground: false, jump_requested: false, camera }
    }
}

/// One (controller, body, camera-heading) triple the per-tick pipeline
/// acts on.
#[derive(Clone, Copy, PartialEq, Eq, Structural, Debug)]
pub struct ControllerEntry {
    /// The identifier of the physics body the controller steers; contact
    /// participants are matched against it.
    pub body: u64,
    pub controller: CharacterController,
    /// The body's state as read from the physics collaborator this tick.
    pub body_state: BodyState,
    /// The body's heading (yaw) component, fixed-point radians; the
    /// camera's rotation follows it.
    pub heading: i64,
}

/// The logical keys the controller reads.
#[derive(Clone, Copy, PartialEq, Eq, Structural, Debug)]
pub enum Key {
    Forward,
    Back,
    Left,
    Right,
    Jump,
}

/// Which of the logical keys are in some state (held, or freshly
/// pressed).
#[derive(Clone, Copy, PartialEq, Eq, Structural, Debug)]
pub struct KeySet {
    pub forward: bool,
    pub back: bool,
    pub left: bool,
    pub right: bool,
    pub jump: bool,
}

impl KeySet {
    /// Whether `k` is in the set.
    pub open spec fn spec_contains(self, k: Key) -> bool {
        match k {
            Key::Forward => self.forward,
            Key::Back => self.back,
            Key::Left => self.left,
            Key::Right => self.right,
            Key::Jump => self.jump,
        }
    }

    /// Whether `k` is in the set.
    pub fn contains(&self, k: Key) -> (b: bool)
        ensures
            b == self.spec_contains(k),
    {
        match k {
            Key::Forward => self.forward,
            Key::Back => self.back,
            Key::Left => self.left,
            Key::Right => self.right,
            Key::Jump => self.jump,
        }
    }
}

/// One tick's view of the input collaborator.
#[derive(Clone, Copy, PartialEq, Eq, Structural, Debug)]
pub struct InputState {
    /// The keys currently held.
    pub pressed: KeySet,
    /// The keys whose press edge happened this tick.
    pub just_pressed: KeySet,
}

impl InputState {
    /// Whether `k` is currently held.
    pub fn is_pressed(&self, k: Key) -> (b: bool)
        ensures
            b == self.pressed.spec_contains(k),
    {
        self.pressed.contains(k)
    }

    /// Whether `k` transitioned to pressed this tick.
    pub fn was_just_pressed(&self, k: Key) -> (b: bool)
        ensures
            b == self.just_pressed.spec_contains(k),
    {
        self.just_pressed.contains(k)
    }
}

/// A mutation request for an outside collaborator: the physics engine
/// (forces and impulses on a body) or the camera transform.
#[derive(Clone, Copy, PartialEq, Eq, Structural, Debug)]
pub enum Command {
    ApplyForce { body: u64, force: FixVec3 },
    ApplyLinearImpulse { body: u64, impulse: FixVec3 },
    SetCameraPosition { camera: u64, position: FixVec3 },
    SetCameraYaw { camera: u64, yaw: i64 },
}

/// The mathematical model of a command, vectors unbounded.
pub enum GCmd {
    ApplyForce { body: u64, force: Vec3i },
    ApplyImpulse { body: u64, impulse: Vec3i },
    SetCameraPosition { camera: u64, position: Vec3i },
    SetCameraYaw { camera: u64, yaw: int },
}

impl View for Command {
    type V = GCmd;

    open spec fn view(&self) -> GCmd {
        match self {
            Command::ApplyForce { body, force } => GCmd::ApplyForce {
                body: *body,
                force: force@,
            },
            Command::ApplyLinearImpulse { body, impulse } => GCmd::ApplyImpulse {
                body: *body,
                impulse: impulse@,
            },
            Command::SetCameraPosition { camera, position } => GCmd::SetCameraPosition {
                camera: *camera,
                position: position@,
            },
            Command::SetCameraYaw { camera, yaw } => GCmd::SetCameraYaw {
                camera: *camera,
                yaw: *yaw as int,
            },
        }
    }
}

/// A command sequence, modelled.
pub open spec fn cmds_view(s: Seq<Command>) -> Seq<GCmd> {
    s.map_values(|c: Command| c@)
}

/// A recoverable fault the caller can log and skip.
#[derive(Clone, Copy, PartialEq, Eq, Structural, Debug)]
pub enum ControlError {
    /// The controller's camera handle no longer resolves to a live
    /// camera, a scene-setup bug surfaced as a result instead of a crash.
    DanglingCamera { body: u64, camera: u64 },
}

/// A jump press edge was seen this tick.
pub open spec fn jump_edge(input: InputState) -> bool {
    input.just_pressed.spec_contains(Key::Jump)
}

/// A jump force fires this tick: the body is grounded and a request is
/// latched or freshly pressed.
pub open spec fn jump_fires(jr: bool, edge: bool, grounded: bool) -> bool {
    grounded && (jr || edge)
}

/// The jump latch after a tick: a latched or fresh request stays pending
/// exactly while the body is airborne; firing clears it.
pub open spec fn jump_latch_after(jr: bool, edge: bool, grounded: bool) -> bool {
    (jr || edge) && !grounded
}

/// The controller state after its update: the grounded flag is reset
/// unconditionally and the jump latch advances; the camera handle never
/// changes.
pub open spec fn controller_after(c: CharacterController, input: InputState) -> CharacterController {
    CharacterController {
        on_ground: false,
        jump_requested: jump_latch_after(c.jump_requested, jump_edge(input), c.on_ground),
        camera: c.camera,
    }
}

/// The local-frame impulse for a held Forward key.
pub open spec fn forward_base() -> Vec3i {
    Vec3i { x: 0, y: 0, z: -(HALF as int) }
}

/// The local-frame impulse for a held Back key.
pub open spec fn back_base() -> Vec3i {
    Vec3i { x: 0, y: 0, z: HALF as int }
}

/// The local-frame impulse for a held Left key.
pub open spec fn left_base() -> Vec3i {
    Vec3i { x: -(HALF as int), y: 0, z: 0 }
}

/// The local-frame impulse for a held Right key.
pub open spec fn right_base() -> Vec3i {
    Vec3i { x: HALF as int, y: 0, z: 0 }
}

/// The jump commands of one update: one fixed upward force when the jump
/// fires, none otherwise.
pub open spec fn jump_gcmds(c: CharacterController, input: InputState, body_id: u64) -> Seq<GCmd> {
    if jump_fires(c.jump_requested, jump_edge(input), c.on_ground) {
        seq![GCmd::ApplyForce { body: body_id, force: Vec3i { x: 0, y: JUMP_FORCE_Y as int, z: 0 } }]
    } else {
        Seq::empty()
    }
}

/// The impulse commands of one held directional key: the base impulse
/// rotated into the world frame by the body's orientation.
pub open spec fn dir_gcmds(held: bool, body_id: u64, q: Quat4i, base: Vec3i) -> Seq<GCmd> {
    if held {
        seq![GCmd::ApplyImpulse { body: body_id, impulse: rotate_spec(q, base) }]
    } else {
        Seq::empty()
    }
}

/// The camera commands of one update: position follows the body, the
/// rotation is a pure yaw from the body's heading; nothing when the
/// camera handle is dangling.
pub open spec fn cam_gcmds(live: bool, camera: u64, position: Vec3i, yaw: int) -> Seq<GCmd> {
    if live {
        seq![
            GCmd::SetCameraPosition { camera, position },
            GCmd::SetCameraYaw { camera, yaw },
        ]
    } else {
        Seq::empty()
    }
}

/// Every command of one controller's update, in order: the jump force,
/// then the four directional impulses, then the camera sync.
pub open spec fn controller_gcmds(
    c: CharacterController,
    input: InputState,
    body_id: u64,
    bs: BodyState,
    heading: i64,
    cam_live: bool,
) -> Seq<GCmd> {
    jump_gcmds(c, input, body_id)
        + dir_gcmds(input.pressed.spec_contains(Key::Forward), body_id, bs.rotation@, forward_base())
        + dir_gcmds(input.pressed.spec_contains(Key::Back), body_id, bs.rotation@, back_base())
        + dir_gcmds(input.pressed.spec_contains(Key::Left), body_id, bs.rotation@, left_base())
        + dir_gcmds(input.pressed.spec_contains(Key::Right), body_id, bs.rotation@, right_base())
        + cam_gcmds(cam_live, c.camera, bs.position@, heading as int)
}

/// The error of one controller's update, if any.
pub open spec fn camera_error(c: CharacterController, body_id: u64, cam_live: bool) -> Option<
    ControlError,
> {
    if cam_live {
        None
    } else {
        Some(ControlError::DanglingCamera { body: body_id, camera: c.camera })
    }
}

/// Whether `x` occurs in `v`.
pub fn contains_id(v: &Vec<u64>, x: u64) -> (b: bool)
    ensures
        b == v@.contains(x),
{
    for i in 0..v.len()
        invariant
            forall|k: int| 0 <= k < i ==> v@[k] != x,
    {
        if v[i] == x {
            return true;
        }
    }
    assert(!v@.contains(x));
    false
}

/// One controller's update for one tick, run after classification.
///
/// Reads the grounded flag the classifier left in `ctrl.on_ground`,
/// latches a fresh jump press, fires the buffered jump when grounded,
/// emits one rotated impulse per held directional key, resets the
/// grounded flag, and syncs the camera — or reports a dangling camera
/// handle instead of touching it. The returned commands are the update's
/// only effect on the outside world.
#[verifier::rlimit(60)]
pub fn update_controller(
    ctrl: &mut CharacterController,
    input: &InputState,
    body_id: u64,
    body: &BodyState,
    heading: i64,
    cameras: &Vec<u64>,
) -> (out: (Vec<Command>, Option<ControlError>))
    requires
        quat_bounded(body.rotation@, ONE as int),
    ensures
        *final(ctrl) == controller_after(*old(ctrl), *input),
        final(ctrl).on_ground == false,
        cmds_view(out.0@) == controller_gcmds(
            *old(ctrl),
            *input,
            body_id,
            *body,
            heading,
            cameras@.contains(old(ctrl).camera),
        ),
        out.1 == camera_error(*old(ctrl), body_id, cameras@.contains(old(ctrl).camera)),
{
    let ghost g0 = jump_gcmds(*old(ctrl), *input, body_id);
    let ghost g1 = g0 + dir_gcmds(
        input.pressed.spec_contains(Key::Forward),
        body_id,
        body.rotation@,
        forward_base(),
    );
    let ghost g2 = g1 + dir_gcmds(
        input.pressed.spec_contains(Key::Back),
        body_id,
        body.rotation@,
        back_base(),
    );
    let ghost g3 = g2 + dir_gcmds(
        input.pressed.spec_contains(Key::Left),
        body_id,
        body.rotation@,
        left_base(),
    );
    let ghost g4 = g3 + dir_gcmds(
        input.pressed.spec_contains(Key::Right),
        body_id,
        body.rotation@,
        right_base(),
    );
    let mut cmds: Vec<Command> = Vec::new();
    let edge = input.was_just_pressed(Key::Jump);
    if edge {
        ctrl.jump_requested = true;
    }
    if ctrl.on_ground && ctrl.jump_requested {
        cmds.push(Command::ApplyForce {
            body: body_id,
            force: FixVec3 { x: 0, y: JUMP_FORCE_Y, z: 0 },
        });
        ctrl.jump_requested = false;
    }
    assert(cmds_view(cmds@) =~= g0);
    if input.is_pressed(Key::Forward) {
        let imp = rotate(&body.rotation, &FixVec3 { x: 0, y: 0, z: -HALF });
        cmds.push(Command::ApplyLinearImpulse { body: body_id, impulse: imp });
    }
    assert(cmds_view(cmds@) =~= g1);
    if input.is_pressed(Key::Back) {
        let imp = rotate(&body.rotation, &FixVec3 { x: 0, y: 0, z: HALF });
        cmds.push(Command::ApplyLinearImpulse { body: body_id, impulse: imp });
    }
    assert(cmds_view(cmds@) =~= g2);
    if input.is_pressed(Key::Left) {
        let imp = rotate(&body.rotation, &FixVec3 { x: -HALF, y: 0, z: 0 });
        cmds.push(Command::ApplyLinearImpulse { body: body_id, impulse: imp });
    }
    assert(cmds_view(cmds@) =~= g3);
    if input.is_pressed(Key::Right) {
        let imp = rotate(&body.rotation, &FixVec3 { x: HALF, y: 0, z: 0 });
        cmds.push(Command::ApplyLinearImpulse { body: body_id, impulse: imp });
    }
    assert(cmds_view(cmds@) =~= g4);
    ctrl.on_ground = false;
    let live = contains_id(cameras, ctrl.camera);
    let err: Option<ControlError>;
    if live {
        cmds.push(Command::SetCameraPosition { camera: ctrl.camera, position: body.position });
        cmds.push(Command::SetCameraYaw { camera: ctrl.camera, yaw: heading });
        err = None;
    } else {
        err = Some(ControlError::DanglingCamera { body: body_id, camera: ctrl.camera });
    }
    assert(cmds_view(cmds@) =~= g4 + cam_gcmds(
        cameras@.contains(old(ctrl).camera),
        old(ctrl).camera,
        body.position@,
        heading as int,
    ));
    (cmds, err)
}

/// The vector sum of all impulses in a command sequence: the net linear
/// impulse the physics collaborator receives from it.
pub open spec fn impulse_sum(s: Seq<GCmd>) -> Vec3i
    decreases s.len(),
{
    if s.len() == 0 {
        Vec3i { x: 0, y: 0, z: 0 }
    } else {
        let rest = impulse_sum(s.drop_first());
        match s[0] {
            GCmd::ApplyImpulse { body, impulse } => vadd(impulse, rest),
            _ => rest,
        }
    }
}

/// The net impulse of a concatenation is the sum of the nets.
proof fn lemma_impulse_sum_add(a: Seq<GCmd>, b: Seq<GCmd>)
    ensures
        impulse_sum(a + b) == vadd(impulse_sum(a), impulse_sum(b)),
    decreases a.len(),
{
    if a.len() == 0 {
        assert(a + b =~= b);
    } else {
        assert((a + b).drop_first() =~= a.drop_first() + b);
        assert((a + b)[0] == a[0]);
        lemma_impulse_sum_add(a.drop_first(), b);
    }
}

/// Holding two opposite directional keys does not cancel: both impulses
/// are applied, and the update's net impulse is exactly the vector sum of
/// the two individually rotated impulses.
pub proof fn lemma_opposite_inputs_compose(
    c: CharacterController,
    input: InputState,
    body_id: u64,
    bs: BodyState,
    heading: i64,
    cam_live: bool,
)
    requires
        input.pressed.spec_contains(Key::Forward),
        input.pressed.spec_contains(Key::Back),
        !input.pressed.spec_contains(Key::Left),
        !input.pressed.spec_contains(Key::Right),
    ensures
        impulse_sum(controller_gcmds(c, input, body_id, bs, heading, cam_live)) == vadd(
            rotate_spec(bs.rotation@, forward_base()),
            rotate_spec(bs.rotation@, back_base()),
        ),
{
    let j = jump_gcmds(c, input, body_id);
    let f = dir_gcmds(true, body_id, bs.rotation@, forward_base());
    let b = dir_gcmds(true, body_id, bs.rotation@, back_base());
    let l = dir_gcmds(false, body_id, bs.rotation@, left_base());
    let r = dir_gcmds(false, body_id, bs.rotation@, right_base());
    let cam = cam_gcmds(cam_live, c.camera, bs.position@, heading as int);
    lemma_impulse_sum_add(j, f);
    lemma_impulse_sum_add(j + f, b);
    lemma_impulse_sum_add(j + f + b, l);
    lemma_impulse_sum_add(j + f + b + l, r);
    lemma_impulse_sum_add(j + f + b + l + r, cam);
    lemma_impulse_sum_singletons(c, input, body_id, bs, heading, cam_live);
}

/// The net impulse of each atomic command group of one update.
proof fn lemma_impulse_sum_singletons(
    c: CharacterController,
    input: InputState,
    body_id: u64,
    bs: BodyState,
    heading: i64,
    cam_live: bool,
)
    ensures
        impulse_sum(jump_gcmds(c, input, body_id)) == (Vec3i { x: 0, y: 0, z: 0 }),
        impulse_sum(cam_gcmds(cam_live, c.camera, bs.position@, heading as int)) == (Vec3i {
            x: 0,
            y: 0,
            z: 0,
        }),
        forall|held: bool, base: Vec3i|
            impulse_sum(#[trigger] dir_gcmds(held, body_id, bs.rotation@, base)) == if held {
                rotate_spec(bs.rotation@, base)
            } else {
                Vec3i { x: 0, y: 0, z: 0 }
            },
{
    let zero = Vec3i { x: 0, y: 0, z: 0 };
    let e = Seq::<GCmd>::empty();
    assert(impulse_sum(e) == zero);
    let j = jump_gcmds(c, input, body_id);
    if j.len() != 0 {
        assert(j.drop_first() =~= e);
        assert(impulse_sum(j.drop_first()) == zero);
        assert(impulse_sum(j) == zero);
    }
    let cam = cam_gcmds(cam_live, c.camera, bs.position@, heading as int);
    if cam.len() != 0 {
        let c1 = cam.drop_first();
        assert(c1.drop_first() =~= e);
        assert(impulse_sum(c1.drop_first()) == zero);
        assert(c1[0] == cam[1]);
        assert(impulse_sum(c1) == zero);
        assert(impulse_sum(cam) == zero);
    }
    assert forall|held: bool, base: Vec3i|
        impulse_sum(#[trigger] dir_gcmds(held, body_id, bs.rotation@, base)) == (if held {
            rotate_spec(bs.rotation@, base)
        } else {
            Vec3i { x: 0, y: 0, z: 0 }
        }) by {
        let d = dir_gcmds(held, body_id, bs.rotation@, base);
        if held {
            assert(d.drop_first() =~= e);
            assert(impulse_sum(d.drop_first()) == zero);
            assert(impulse_sum(d) == vadd(rotate_spec(bs.rotation@, base), zero));
            assert(vadd(rotate_spec(bs.rotation@, base), zero) == rotate_spec(
                bs.rotation@,
                base,
            ));
        }
    }
}

/// The jump latch carried across consecutive ticks during which the jump
/// key sees no fresh press edge; each tick's entry is whether the body
/// was grounded that tick.
pub open spec fn latch_after_ticks(jr: bool, grounded: Seq<bool>) -> bool
    decreases grounded.len(),
{
    if grounded.len() == 0 {
        jr
    } else {
        latch_after_ticks(jump_latch_after(jr, false, grounded[0]), grounded.drop_first())
    }
}

/// Whether the jump fires at tick `i` of such a run of ticks.
pub open spec fn jump_fires_at(jr: bool, grounded: Seq<bool>, i: int) -> bool {
    jump_fires(latch_after_ticks(jr, grounded.take(i)), false, grounded[i])
}

/// With no request latched and no fresh press, the latch stays clear.
proof fn lemma_latch_stays_clear(grounded: Seq<bool>)
    ensures
        !latch_after_ticks(false, grounded),
    decreases grounded.len(),
{
    if grounded.len() > 0 {
        lemma_latch_stays_clear(grounded.drop_first());
    }
}

/// A latched request survives a run of press-free ticks exactly when the
/// body was airborne throughout.
proof fn lemma_latched_until_grounded(g: Seq<bool>)
    ensures
        latch_after_ticks(true, g) == (forall|k: int| 0 <= k < g.len() ==> !g[k]),
    decreases g.len(),
{
    if g.len() == 0 {
    } else {
        let gd = g.drop_first();
        if g[0] {
            lemma_latch_stays_clear(gd);
            assert(0 <= 0 < g.len() && g[0]);
            assert(!(forall|k: int| 0 <= k < g.len() ==> !g[k]));
        } else {
            lemma_latched_until_grounded(gd);
            assert(latch_after_ticks(true, g) == latch_after_ticks(true, gd));
            if forall|k: int| 0 <= k < gd.len() ==> !gd[k] {
                assert forall|k: int| 0 <= k < g.len() implies !g[k] by {
                    if k > 0 {
                        assert(!gd[k - 1]);
                    }
                }
            } else {
                assert(exists|k: int| 0 <= k < gd.len() && gd[k]);
                let k0 = choose|k: int| 0 <= k < gd.len() && gd[k];
                assert(0 <= k0 + 1 < g.len() && g[k0 + 1]);
                assert(!(forall|k: int| 0 <= k < g.len() ==> !g[k]));
            }
        }
    }
}

/// A single jump request latched while airborne (and no further press)
/// fires exactly once: at the first subsequent grounded tick, and at no
/// tick after it.
pub proof fn lemma_buffered_jump_fires_once(grounded: Seq<bool>)
    ensures
        forall|i: int|
            0 <= i < grounded.len() ==> (#[trigger] jump_fires_at(true, grounded, i) <==> (
            grounded[i] && forall|k: int| 0 <= k < i ==> !grounded[k])),
        forall|i: int, j: int|
            0 <= i < j < grounded.len() && #[trigger] jump_fires_at(true, grounded, i)
                ==> !(#[trigger] jump_fires_at(true, grounded, j)),
{
    assert forall|i: int| 0 <= i < grounded.len() implies (#[trigger] jump_fires_at(
        true,
        grounded,
        i,
    ) <==> (grounded[i] && forall|k: int| 0 <= k < i ==> !grounded[k])) by {
        let t = grounded.take(i);
        lemma_latched_until_grounded(t);
        assert(t.len() == i);
        if latch_after_ticks(true, t) {
            assert forall|k: int| 0 <= k < i implies !grounded[k] by {
                assert(!t[k]);
            }
        } else {
            assert(!(forall|k: int| 0 <= k < t.len() ==> !t[k]));
            assert(exists|k: int| 0 <= k < t.len() && t[k]);
            let k0 = choose|k: int| 0 <= k < t.len() && t[k];
            assert(grounded[k0]);
            assert(!(forall|k: int| 0 <= k < i ==> !grounded[k]));
        }
    }
    assert forall|i: int, j: int|
        0 <= i < j < grounded.len() && #[trigger] jump_fires_at(true, grounded, i) implies !(
    #[trigger] jump_fires_at(true, grounded, j)) by {
        assert(grounded[i]);
        if jump_fires_at(true, grounded, j) {
            assert(forall|k: int| 0 <= k < j ==> !grounded[k]);
            assert(!grounded[i]);
        }
    }
}

} // verus!
