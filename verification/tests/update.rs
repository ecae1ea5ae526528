use character_controller::controller::{
    update_controller, BodyState, CharacterController, Command, ControlError, InputState, KeySet,
    JUMP_FORCE_Y,
};
use character_controller::math::{FixQuat, FixVec3, HALF, ONE};

fn v(x: i64, y: i64, z: i64) -> FixVec3 {
    FixVec3 { x, y, z }
}

fn no_keys() -> KeySet {
    KeySet { forward: false, back: false, left: false, right: false, jump: false }
}

fn idle_input() -> InputState {
    InputState { pressed: no_keys(), just_pressed: no_keys() }
}

fn body_at(x: i64, y: i64, z: i64) -> BodyState {
    BodyState { position: v(x, y, z), rotation: FixQuat { x: 0, y: 0, z: 0, w: ONE } }
}

/// A fresh controller is airborne with no jump pending.
#[test]
fn new_controller_is_airborne() {
    let c = CharacterController::new(42);
    assert!(!c.on_ground);
    assert!(!c.jump_requested);
    assert_eq!(c.camera, 42);
}

/// A grounded controller with a fresh jump press gets exactly one upward
/// force, and the latch clears.
#[test]
fn grounded_jump_press_fires_force() {
    let mut ctrl = CharacterController::new(5);
    ctrl.on_ground = true;
    let input = InputState {
        pressed: KeySet { jump: true, ..no_keys() },
        just_pressed: KeySet { jump: true, ..no_keys() },
    };
    let body = body_at(0, 2 * ONE, 0);
    let (cmds, err) = update_controller(&mut ctrl, &input, 1, &body, 0, &vec![5]);
    assert_eq!(err, None);
    assert_eq!(
        cmds,
        vec![
            Command::ApplyForce { body: 1, force: v(0, JUMP_FORCE_Y, 0) },
            Command::SetCameraPosition { camera: 5, position: v(0, 2 * ONE, 0) },
            Command::SetCameraYaw { camera: 5, yaw: 0 },
        ]
    );
    assert!(!ctrl.jump_requested);
    assert!(!ctrl.on_ground);
}

/// A jump press while airborne applies no force but stays latched.
#[test]
fn airborne_jump_press_is_buffered() {
    let mut ctrl = CharacterController::new(5);
    let input = InputState {
        pressed: KeySet { jump: true, ..no_keys() },
        just_pressed: KeySet { jump: true, ..no_keys() },
    };
    let body = body_at(0, 0, 0);
    let (cmds, _) = update_controller(&mut ctrl, &input, 1, &body, 0, &vec![5]);
    assert!(cmds
        .iter()
        .all(|c| !matches!(c, Command::ApplyForce { .. })));
    assert!(ctrl.jump_requested);
}

/// A held jump key is not a press edge: it neither latches nor fires.
#[test]
fn held_jump_key_does_not_relatch() {
    let mut ctrl = CharacterController::new(5);
    ctrl.on_ground = true;
    let input = InputState {
        pressed: KeySet { jump: true, ..no_keys() },
        just_pressed: no_keys(),
    };
    let body = body_at(0, 0, 0);
    let (cmds, _) = update_controller(&mut ctrl, &input, 1, &body, 0, &vec![5]);
    assert!(cmds
        .iter()
        .all(|c| !matches!(c, Command::ApplyForce { .. })));
    assert!(!ctrl.jump_requested);
}

/// With the identity orientation, a held Forward key applies exactly the
/// local-frame impulse.
#[test]
fn forward_impulse_identity_rotation() {
    let mut ctrl = CharacterController::new(5);
    let input = InputState {
        pressed: KeySet { forward: true, ..no_keys() },
        just_pressed: no_keys(),
    };
    let body = body_at(0, 0, 0);
    let (cmds, _) = update_controller(&mut ctrl, &input, 1, &body, 0, &vec![5]);
    assert_eq!(cmds[0], Command::ApplyLinearImpulse { body: 1, impulse: v(0, 0, -HALF) });
}

/// A half-turn yaw orientation rotates the forward impulse to point the
/// other way, exactly.
#[test]
fn forward_impulse_half_turn_rotation() {
    let mut ctrl = CharacterController::new(5);
    let input = InputState {
        pressed: KeySet { forward: true, ..no_keys() },
        just_pressed: no_keys(),
    };
    let body = BodyState {
        position: v(0, 0, 0),
        rotation: FixQuat { x: 0, y: ONE, z: 0, w: 0 },
    };
    let (cmds, _) = update_controller(&mut ctrl, &input, 1, &body, 0, &vec![5]);
    assert_eq!(cmds[0], Command::ApplyLinearImpulse { body: 1, impulse: v(0, 0, HALF) });
}

/// Opposite held directions are both applied, not cancelled: the commands
/// hold both impulses and their net is the vector sum of the two.
#[test]
fn opposite_directions_both_apply() {
    let mut ctrl = CharacterController::new(5);
    let input = InputState {
        pressed: KeySet { forward: true, back: true, ..no_keys() },
        just_pressed: no_keys(),
    };
    let body = body_at(0, 0, 0);
    let (cmds, _) = update_controller(&mut ctrl, &input, 1, &body, 0, &vec![5]);
    let impulses: Vec<FixVec3> = cmds
        .iter()
        .filter_map(|c| match c {
            Command::ApplyLinearImpulse { impulse, .. } => Some(*impulse),
            _ => None,
        })
        .collect();
    assert_eq!(impulses, vec![v(0, 0, -HALF), v(0, 0, HALF)]);
    let net = v(
        impulses[0].x + impulses[1].x,
        impulses[0].y + impulses[1].y,
        impulses[0].z + impulses[1].z,
    );
    assert_eq!(net, v(0, 0, 0));
}

/// All four held directions compose additively, in a fixed order.
#[test]
fn four_directions_compose() {
    let mut ctrl = CharacterController::new(5);
    let input = InputState {
        pressed: KeySet { forward: true, back: true, left: true, right: true, jump: false },
        just_pressed: no_keys(),
    };
    let body = body_at(0, 0, 0);
    let (cmds, _) = update_controller(&mut ctrl, &input, 1, &body, 0, &vec![5]);
    assert_eq!(
        cmds,
        vec![
            Command::ApplyLinearImpulse { body: 1, impulse: v(0, 0, -HALF) },
            Command::ApplyLinearImpulse { body: 1, impulse: v(0, 0, HALF) },
            Command::ApplyLinearImpulse { body: 1, impulse: v(-HALF, 0, 0) },
            Command::ApplyLinearImpulse { body: 1, impulse: v(HALF, 0, 0) },
            Command::SetCameraPosition { camera: 5, position: v(0, 0, 0) },
            Command::SetCameraYaw { camera: 5, yaw: 0 },
        ]
    );
}

/// The camera follows the body's position and takes a pure yaw rotation
/// from the heading.
#[test]
fn camera_follows_body_with_yaw() {
    let mut ctrl = CharacterController::new(9);
    let body = body_at(3 * ONE, 2 * ONE, -ONE);
    let heading: i64 = 12345;
    let (cmds, err) = update_controller(&mut ctrl, &idle_input(), 1, &body, heading, &vec![8, 9]);
    assert_eq!(err, None);
    assert_eq!(
        cmds,
        vec![
            Command::SetCameraPosition { camera: 9, position: v(3 * ONE, 2 * ONE, -ONE) },
            Command::SetCameraYaw { camera: 9, yaw: 12345 },
        ]
    );
}

/// A camera handle that resolves to no live camera is reported as a
/// recoverable error and the camera sync is skipped; the rest of the
/// update still happens.
#[test]
fn dangling_camera_reported_not_fatal() {
    let mut ctrl = CharacterController::new(77);
    let input = InputState {
        pressed: KeySet { forward: true, ..no_keys() },
        just_pressed: no_keys(),
    };
    let body = body_at(0, 0, 0);
    let (cmds, err) = update_controller(&mut ctrl, &input, 1, &body, 0, &vec![8, 9]);
    assert_eq!(err, Some(ControlError::DanglingCamera { body: 1, camera: 77 }));
    assert_eq!(
        cmds,
        vec![Command::ApplyLinearImpulse { body: 1, impulse: v(0, 0, -HALF) }]
    );
}

/// The grounded flag is reset unconditionally at the end of every update.
#[test]
fn grounded_flag_reset_every_update() {
    let mut ctrl = CharacterController::new(5);
    ctrl.on_ground = true;
    let body = body_at(0, 0, 0);
    let (_, _) = update_controller(&mut ctrl, &idle_input(), 1, &body, 0, &vec![5]);
    assert!(!ctrl.on_ground);
}
