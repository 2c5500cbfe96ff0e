use tank_game::contact::shape_kill_credits;
use tank_game::registry::BulletRegistry;

#[test]
fn registered_bullets_are_owned() {
    let mut r = BulletRegistry::new();
    assert!(!r.owns(1, 10));
    r.register(10, 1);
    r.register(11, 1);
    r.register(20, 2);
    assert!(r.owns(1, 10));
    assert!(r.owns(1, 11));
    assert!(!r.owns(2, 10));
    assert!(r.owns(2, 20));
    let mut mine = r.owned_by(1);
    mine.sort();
    assert_eq!(mine, vec![10, 11]);
    assert_eq!(r.owned_by(3), Vec::<u128>::new());
}

#[test]
fn registering_again_moves_the_bullet() {
    let mut r = BulletRegistry::new();
    r.register(10, 1);
    r.register(10, 2);
    assert!(!r.owns(1, 10));
    assert!(r.owns(2, 10));
    assert!(r.owned_by(1).is_empty());
    assert_eq!(r.owned_by(2), vec![10]);
}

#[test]
fn retired_bullets_are_forgotten() {
    let mut r = BulletRegistry::new();
    r.register(10, 1);
    r.register(11, 1);
    r.retire(10);
    r.retire(99);
    assert!(!r.owns(1, 10));
    assert_eq!(r.owned_by(1), vec![11]);
}

#[test]
fn release_all_forgets_one_owner() {
    let mut r = BulletRegistry::new();
    r.register(10, 1);
    r.register(20, 2);
    r.register(11, 1);
    r.release_all(1);
    assert!(r.owned_by(1).is_empty());
    assert!(r.owns(2, 20));
}

#[test]
fn just_spawned_shapes_give_no_xp() {
    assert!(!shape_kill_credits(true));
    assert!(shape_kill_credits(false));
}
