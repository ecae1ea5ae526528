use character_controller::contact::{classify, floor_like_first, floor_like_second, Contact, WorldConfig};
use character_controller::controller::{BodyState, CharacterController, ControllerEntry};
use character_controller::math::{FixQuat, FixVec3, ONE, UNIT_SQ};

fn v(x: i64, y: i64, z: i64) -> FixVec3 {
    FixVec3 { x, y, z }
}

fn identity() -> FixQuat {
    FixQuat { x: 0, y: 0, z: 0, w: ONE }
}

fn entry(body: u64, camera: u64) -> ControllerEntry {
    ControllerEntry {
        body,
        controller: CharacterController::new(camera),
        body_state: BodyState { position: v(0, 0, 0), rotation: identity() },
        heading: 0,
    }
}

fn cfg_up_y(cos_tol: i64) -> WorldConfig {
    WorldConfig { up: v(0, ONE, 0), cos_tol }
}

/// Tolerance 0.1 rad, up = (0,1,0), normal = (0,1,0): the contact is
/// floor-like on the side whose test uses the normal itself, and the
/// controller owning that body is grounded after classification.
#[test]
fn floor_contact_grounds_controller() {
    let cos_tol = ((0.1f64).cos() * 65536.0) as i64;
    let cfg = cfg_up_y(cos_tol);
    let up_normal = v(0, ONE, 0);
    assert!(floor_like_second(&cfg, &up_normal));
    assert!(!floor_like_first(&cfg, &up_normal));

    let contacts = vec![Contact { body_a: 7, body_b: 1, normal: up_normal }];
    let mut controllers = vec![entry(1, 100)];
    classify(&contacts, 0, &mut controllers, &cfg);
    assert!(controllers[0].controller.on_ground);
}

/// A normal exactly equal to -up grounds the first body, not the second.
#[test]
fn negated_up_normal_grounds_first_body() {
    let cos_tol = ((0.1f64).cos() * 65536.0) as i64;
    let cfg = cfg_up_y(cos_tol);
    let down_normal = v(0, -ONE, 0);
    assert!(floor_like_first(&cfg, &down_normal));
    assert!(!floor_like_second(&cfg, &down_normal));

    let contacts = vec![Contact { body_a: 1, body_b: 7, normal: down_normal }];
    let mut controllers = vec![entry(1, 100), entry(7, 101)];
    classify(&contacts, 0, &mut controllers, &cfg);
    assert!(controllers[0].controller.on_ground);
    assert!(!controllers[1].controller.on_ground);
}

/// Swapping which body is first and negating the normal grounds the same
/// controller.
#[test]
fn classification_symmetric_under_body_swap() {
    let cos_tol = ((0.25f64).cos() * 65536.0) as i64;
    let cfg = cfg_up_y(cos_tol);
    // A slightly tilted floor normal, still within 0.25 rad of up.
    let n = v(6000, 65000, 0);

    let contacts_one = vec![Contact { body_a: 9, body_b: 3, normal: n }];
    let mut ctls_one = vec![entry(3, 100)];
    classify(&contacts_one, 0, &mut ctls_one, &cfg);

    let contacts_two = vec![Contact { body_a: 3, body_b: 9, normal: v(-n.x, -n.y, -n.z) }];
    let mut ctls_two = vec![entry(3, 100)];
    classify(&contacts_two, 0, &mut ctls_two, &cfg);

    assert!(ctls_one[0].controller.on_ground);
    assert_eq!(
        ctls_one[0].controller.on_ground,
        ctls_two[0].controller.on_ground
    );
}

/// A normal perpendicular to up (a wall) never grounds anyone for a
/// tolerance below a right angle.
#[test]
fn perpendicular_normal_never_floor_like() {
    // cos_tol == 0 is a tolerance of exactly pi/2.
    let cfg = cfg_up_y(0);
    let wall = v(ONE, 0, 0);
    assert!(!floor_like_first(&cfg, &wall));
    assert!(!floor_like_second(&cfg, &wall));

    let cfg_tight = cfg_up_y(((0.1f64).cos() * 65536.0) as i64);
    assert!(!floor_like_first(&cfg_tight, &wall));
    assert!(!floor_like_second(&cfg_tight, &wall));

    let contacts = vec![Contact { body_a: 1, body_b: 2, normal: wall }];
    let mut controllers = vec![entry(1, 100), entry(2, 101)];
    classify(&contacts, 0, &mut controllers, &cfg);
    assert!(!controllers[0].controller.on_ground);
    assert!(!controllers[1].controller.on_ground);
}

/// A contact neither of whose participants maps to a controller is
/// silently ignored.
#[test]
fn unmapped_contact_participants_ignored() {
    let cfg = cfg_up_y(0);
    let contacts = vec![Contact { body_a: 40, body_b: 41, normal: v(0, ONE, 0) }];
    let mut controllers = vec![entry(1, 100)];
    classify(&contacts, 0, &mut controllers, &cfg);
    assert!(!controllers[0].controller.on_ground);
}

/// Classification only ever sets the grounded flag, never clears it, and
/// leaves every other field alone.
#[test]
fn classify_only_sets_flags() {
    let cfg = cfg_up_y(0);
    let mut e = entry(1, 100);
    e.controller.on_ground = true;
    e.controller.jump_requested = true;
    let mut controllers = vec![e];
    let contacts: Vec<Contact> = Vec::new();
    classify(&contacts, 0, &mut controllers, &cfg);
    assert!(controllers[0].controller.on_ground);
    assert!(controllers[0].controller.jump_requested);
    assert_eq!(controllers[0].controller.camera, 100);
    assert_eq!(controllers[0].body, 1);
}

/// A dot product overshooting the unit range is clamped before the
/// threshold comparison: it behaves exactly like a dot of one.
#[test]
fn overshooting_dot_product_is_clamped() {
    // An "up" and a normal that are not quite unit: their dot product is
    // 3 * ONE * ONE, far past the inverse-cosine domain.
    let cfg = WorldConfig { up: v(ONE, ONE, ONE), cos_tol: ONE };
    let n = v(ONE, ONE, ONE);
    // Clamped to exactly UNIT_SQ, the comparison against cos_tol == ONE
    // (a tolerance of zero angle) is not strict enough to pass.
    assert_eq!(UNIT_SQ, 4294967296);
    assert!(!floor_like_second(&cfg, &n));
    // One step of slack and the clamped dot passes.
    let cfg_slack = WorldConfig { up: v(ONE, ONE, ONE), cos_tol: ONE - 1 };
    assert!(floor_like_second(&cfg_slack, &n));
}

/// Only contacts at or after `start` are consumed.
#[test]
fn classify_respects_start_cursor() {
    let cos_tol = ((0.1f64).cos() * 65536.0) as i64;
    let cfg = cfg_up_y(cos_tol);
    let contacts = vec![
        Contact { body_a: 7, body_b: 1, normal: v(0, ONE, 0) },
        Contact { body_a: 8, body_b: 9, normal: v(ONE, 0, 0) },
    ];
    let mut controllers = vec![entry(1, 100)];
    // Start past the floor contact: nothing fresh grounds the body.
    classify(&contacts, 1, &mut controllers, &cfg);
    assert!(!controllers[0].controller.on_ground);
    // From the beginning, the floor contact counts.
    classify(&contacts, 0, &mut controllers, &cfg);
    assert!(controllers[0].controller.on_ground);
}
