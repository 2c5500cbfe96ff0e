use tank_game::contact::{
    contact_credit, contact_response, ContactCredit, ContactResponse, ObjectKind, ProjectileKind,
};
use tank_game::framing::trim_json_message;
use tank_game::shapes::{spawned_shape_kind, ShapeKind};
use tank_game::sweep::{broad_phase_pairs, SweepEvent};

fn trim(s: &str) -> String {
    trim_json_message(s).into_iter().collect()
}

#[test]
fn trims_first_complete_object() {
    assert_eq!(trim("{\"a\":1}{\"b\":"), "{\"a\":1}");
    assert_eq!(trim("{\"a\":{\"b\":2}} tail"), "{\"a\":{\"b\":2}}");
}

#[test]
fn incomplete_object_is_kept_whole() {
    assert_eq!(trim("{\"a\":{"), "{\"a\":{");
    assert_eq!(trim("{{}"), "{{}");
}

#[test]
fn leading_other_character_is_a_message_of_its_own() {
    assert_eq!(trim("x{}"), "x");
    assert_eq!(trim("}{"), "}{");
    assert_eq!(trim(""), "");
}

#[test]
fn trims_characters_not_bytes() {
    assert_eq!(trim("{\"é\":\"ü\"}more"), "{\"é\":\"ü\"}");
}

fn ev(id: u128, is_start: bool) -> SweepEvent {
    SweepEvent { id, is_start }
}

#[test]
fn sweep_reports_overlapping_pairs() {
    // extents: 1 over [0, 2], 2 over [1, 3], 3 over [4, 5]
    let events = vec![ev(1, true), ev(2, true), ev(1, false), ev(2, false), ev(3, true), ev(3, false)];
    assert_eq!(broad_phase_pairs(&events), vec![(2, 1)]);
}

#[test]
fn sweep_nested_extents() {
    let events = vec![ev(1, true), ev(2, true), ev(3, true), ev(3, false), ev(2, false), ev(1, false)];
    assert_eq!(broad_phase_pairs(&events), vec![(2, 1), (3, 1), (3, 2)]);
}

#[test]
fn sweep_disjoint_and_empty() {
    let events = vec![ev(1, true), ev(1, false), ev(2, true), ev(2, false)];
    assert!(broad_phase_pairs(&events).is_empty());
    assert!(broad_phase_pairs(&Vec::new()).is_empty());
}

#[test]
fn sweep_order_follows_entry_order() {
    let events = vec![ev(5, true), ev(7, true), ev(5, false), ev(9, true), ev(8, true)];
    assert_eq!(broad_phase_pairs(&events), vec![(7, 5), (9, 7), (8, 7), (8, 9)]);
}

const BULLET: ObjectKind = ObjectKind::Projectile(ProjectileKind::Bullet);
const TRAP: ObjectKind = ObjectKind::Projectile(ProjectileKind::Trap);
const MBOMB: ObjectKind = ObjectKind::Projectile(ProjectileKind::MagnetBomb);

#[test]
fn magnet_bombs_stick() {
    assert_eq!(contact_response(ObjectKind::Tank, MBOMB, false), ContactResponse::ActiveSticks);
    assert_eq!(contact_response(MBOMB, ObjectKind::Shape, false), ContactResponse::EnteringSticks);
    assert_eq!(contact_response(MBOMB, MBOMB, false), ContactResponse::ActiveSticks);
}

#[test]
fn projectiles_between_themselves() {
    assert_eq!(contact_response(BULLET, BULLET, false), ContactResponse::Ignore);
    assert_eq!(contact_response(BULLET, TRAP, false), ContactResponse::PositionOnly);
    assert_eq!(
        contact_response(ObjectKind::Projectile(ProjectileKind::Bomb), BULLET, false),
        ContactResponse::PositionOnly
    );
    assert_eq!(
        contact_response(ObjectKind::Projectile(ProjectileKind::Drone), BULLET, false),
        ContactResponse::Ignore
    );
}

#[test]
fn own_projectiles_do_not_collide() {
    assert_eq!(contact_response(ObjectKind::Tank, BULLET, true), ContactResponse::Ignore);
    assert_eq!(contact_response(ObjectKind::Tank, BULLET, false), ContactResponse::Collide);
    assert_eq!(contact_response(ObjectKind::Tank, ObjectKind::Shape, false), ContactResponse::Collide);
    assert_eq!(contact_response(ObjectKind::Tank, ObjectKind::Tank, false), ContactResponse::Collide);
}

#[test]
fn credits() {
    assert_eq!(contact_credit(ObjectKind::Tank, BULLET), ContactCredit::TankHit { entering: true });
    assert_eq!(contact_credit(TRAP, ObjectKind::Tank), ContactCredit::TankHit { entering: false });
    assert_eq!(contact_credit(ObjectKind::Tank, ObjectKind::Tank), ContactCredit::TanksCollide);
    assert_eq!(
        contact_credit(ObjectKind::Shape, ObjectKind::Tank),
        ContactCredit::TankTouchesShape { entering: false }
    );
    assert_eq!(
        contact_credit(BULLET, ObjectKind::Shape),
        ContactCredit::ProjectileTouchesShape { entering: true }
    );
    assert_eq!(contact_credit(ObjectKind::Shape, ObjectKind::Shape), ContactCredit::Nothing);
    assert_eq!(contact_credit(BULLET, TRAP), ContactCredit::Nothing);
}

#[test]
fn projectile_kinds() {
    assert_eq!(ProjectileKind::MagnetBomb.texture_name(), "mbomb");
    assert!(ProjectileKind::TrapBomb.is_trap() && ProjectileKind::Trap.is_trap());
    assert!(!ProjectileKind::Bomb.is_trap());
    assert!(ProjectileKind::MagnetBomb.bursts() && !ProjectileKind::Drone.bursts());
    assert_eq!(ProjectileKind::TrapBomb.fragment_kind(), ProjectileKind::Trap);
    assert_eq!(ProjectileKind::Bomb.fragment_kind(), ProjectileKind::Bullet);
    assert!(ProjectileKind::MagnetBomb.is_bomb() && !ProjectileKind::TrapBomb.is_bomb());
}

#[test]
fn shape_kinds() {
    assert_eq!(spawned_shape_kind(false, false, false, true), ShapeKind::Square);
    assert_eq!(spawned_shape_kind(false, true, false, true), ShapeKind::Triangle);
    assert_eq!(spawned_shape_kind(true, true, false, false), ShapeKind::Hexagon);
    assert_eq!(spawned_shape_kind(true, false, false, true), ShapeKind::TwelveGon);
    assert_eq!(spawned_shape_kind(false, true, true, true), ShapeKind::TwelveGon);
    assert_eq!(spawned_shape_kind(false, true, true, false), ShapeKind::Triangle);
    assert_eq!(ShapeKind::TwelveGon.texture_name(), "12gon");
}

#[test]
fn credit_does_not_depend_on_sweep_order() {
    let kinds = [ObjectKind::Tank, ObjectKind::Shape, BULLET, TRAP, MBOMB];
    for x in kinds {
        for y in kinds {
            let swapped = match contact_credit(y, x) {
                ContactCredit::TankHit { entering } => ContactCredit::TankHit { entering: !entering },
                ContactCredit::TankTouchesShape { entering } => {
                    ContactCredit::TankTouchesShape { entering: !entering }
                }
                ContactCredit::ProjectileTouchesShape { entering } => {
                    ContactCredit::ProjectileTouchesShape { entering: !entering }
                }
                other => other,
            };
            assert_eq!(contact_credit(x, y), swapped);
        }
    }
}

#[test]
fn sweep_pairs_each_overlap_once() {
    // extents: 1 over [0, 10], 2 over [1, 2], 3 over [3, 4], 4 over [5, 11]
    let events = vec![
        ev(1, true), ev(2, true), ev(2, false), ev(3, true), ev(3, false), ev(4, true), ev(1, false),
        ev(4, false),
    ];
    let pairs = broad_phase_pairs(&events);
    assert_eq!(pairs, vec![(2, 1), (3, 1), (4, 1)]);
}
