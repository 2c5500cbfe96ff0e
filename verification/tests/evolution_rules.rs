use tank_game::controls::{ai_upgrade_choice, promotion_choices, EvolutionRequest};
use tank_game::evolution::{Evolution, Stat, TankClass, MAX_LEVEL, PROMOTION_COST, UPGRADE_COST};
use tank_game::input::{Input, KEY_LSHIFT, KEY_NUM1};

fn all_classes() -> Vec<TankClass> {
    vec![
        TankClass::Basic,
        TankClass::Double,
        TankClass::Triple,
        TankClass::Cross,
        TankClass::Hailstorm,
        TankClass::Spawner,
        TankClass::Anthill,
        TankClass::Infector,
        TankClass::Bomber,
        TankClass::MagnetBomber,
        TankClass::Tribomber,
        TankClass::Trapper,
        TankClass::Trapspawner,
        TankClass::Barricade,
        TankClass::Trapbomber,
        TankClass::Sniper,
        TankClass::Wide,
        TankClass::Shotgun,
    ]
}

#[test]
fn basic_evolves_to_five_classes() {
    assert_eq!(
        TankClass::Basic.evolves_to(),
        vec![
            TankClass::Double,
            TankClass::Sniper,
            TankClass::Bomber,
            TankClass::Trapper,
            TankClass::Spawner
        ]
    );
}

#[test]
fn tree_branches() {
    assert_eq!(
        TankClass::Double.evolves_to(),
        vec![TankClass::Hailstorm, TankClass::Triple, TankClass::Cross]
    );
    assert_eq!(
        TankClass::MagnetBomber.evolves_to(),
        vec![TankClass::Tribomber, TankClass::Trapbomber]
    );
    assert_eq!(TankClass::Anthill.evolves_to(), vec![TankClass::Infector, TankClass::Anthill]);
    assert!(TankClass::Shotgun.evolves_to().is_empty());
    assert!(TankClass::Barricade.evolves_to().is_empty());
}

#[test]
fn no_class_offers_more_than_nine_promotions() {
    for c in all_classes() {
        assert!(c.evolves_to().len() <= 9);
    }
}

#[test]
fn every_class_reachable_from_basic() {
    let mut seen = vec![TankClass::Basic];
    let mut i = 0;
    while i < seen.len() {
        for t in seen[i].evolves_to() {
            if !seen.contains(&t) {
                seen.push(t);
            }
        }
        i += 1;
    }
    for c in all_classes() {
        assert!(seen.contains(&c));
    }
}

#[test]
fn class_and_texture_names() {
    assert_eq!(TankClass::Basic.name(), "basic");
    assert_eq!(TankClass::MagnetBomber.name(), "magnet bomber");
    assert_eq!(TankClass::MagnetBomber.texture_name(), "magnetbomber");
    assert_eq!(TankClass::Trapspawner.texture_name(), "trapspawner");
    let mut names: Vec<&str> = all_classes().iter().map(|c| c.name()).collect();
    names.sort();
    names.dedup();
    assert_eq!(names.len(), 18);
}

#[test]
fn drone_classes() {
    let drones: Vec<TankClass> = all_classes().into_iter().filter(|c| c.spawns_drones()).collect();
    assert_eq!(
        drones,
        vec![TankClass::Spawner, TankClass::Anthill, TankClass::Infector, TankClass::Trapspawner]
    );
}

#[test]
fn costs() {
    assert_eq!(TankClass::Double.promotion_cost(), 1000);
    assert_eq!(PROMOTION_COST, 1000);
    assert_eq!(UPGRADE_COST, 100);
    assert_eq!(MAX_LEVEL, 10);
}

#[test]
fn new_evolution_is_basic_level_zero() {
    let e = Evolution::new();
    assert_eq!(e.class, TankClass::Basic);
    for s in [Stat::Hp, Stat::Regen, Stat::Reload, Stat::Damage, Stat::Speed, Stat::BulletSpeed] {
        assert_eq!(e.level(s), 0);
    }
}

#[test]
fn upgrade_stops_at_max_level() {
    let mut e = Evolution::new();
    for n in 1..=10 {
        assert!(e.try_upgrade(Stat::Reload));
        assert_eq!(e.reload_level, n);
    }
    assert!(!e.try_upgrade(Stat::Reload));
    assert_eq!(e.reload_level, 10);
    assert_eq!(e.hp_level, 0);
    assert!(e.try_upgrade(Stat::BulletSpeed));
    assert_eq!(e.bulletspeed_level, 1);
}

#[test]
fn promotion_deletes_upgrades() {
    let mut e = Evolution::new();
    e.try_upgrade(Stat::Hp);
    e.try_upgrade(Stat::Speed);
    e.promote(TankClass::Sniper);
    assert_eq!(e.class, TankClass::Sniper);
    assert_eq!(e.hp_level, 0);
    assert_eq!(e.speed_level, 0);
    let mut fresh = Evolution::new();
    fresh.class = TankClass::Sniper;
    assert_eq!(e, fresh);
}

#[test]
fn promotion_choices_follow_key_positions() {
    let keys = [false, true, false, false, true, false, false, false, false];
    assert_eq!(
        promotion_choices(TankClass::Basic, keys),
        vec![TankClass::Sniper, TankClass::Spawner]
    );
    let keys = [true, false, true, false, false, false, true, true, true];
    assert_eq!(
        promotion_choices(TankClass::Sniper, keys),
        vec![TankClass::Hailstorm, TankClass::Shotgun]
    );
    assert!(promotion_choices(TankClass::Wide, [true; 9]).is_empty());
}

#[test]
fn ai_upgrade_takes_first_roll() {
    assert_eq!(ai_upgrade_choice([false, false, true, true, false, true]), Some(Stat::Reload));
    assert_eq!(ai_upgrade_choice([true, true, true, true, true, true]), Some(Stat::Hp));
    assert_eq!(ai_upgrade_choice([false, false, false, false, false, true]), Some(Stat::BulletSpeed));
    assert_eq!(ai_upgrade_choice([false; 6]), None);
}

#[test]
fn player_with_shift_promotes() {
    let mut input = Input::init();
    input.register_keydown(KEY_LSHIFT);
    input.register_keydown(KEY_NUM1 + 2);
    match input.evolution_request(TankClass::Basic) {
        EvolutionRequest::Promote(v) => assert_eq!(v, vec![TankClass::Bomber]),
        EvolutionRequest::Upgrade(_) => panic!("expected a promotion"),
    }
}

#[test]
fn player_without_shift_upgrades() {
    let mut input = Input::init();
    input.register_keydown(KEY_NUM1);
    input.register_keydown(KEY_NUM1 + 5);
    input.register_keydown(KEY_NUM1 + 7);
    match input.evolution_request(TankClass::Basic) {
        EvolutionRequest::Upgrade(v) => assert_eq!(v, vec![Stat::Hp, Stat::BulletSpeed]),
        EvolutionRequest::Promote(_) => panic!("expected upgrades"),
    }
    input.refresh();
    match input.evolution_request(TankClass::Basic) {
        EvolutionRequest::Upgrade(v) => assert!(v.is_empty()),
        EvolutionRequest::Promote(_) => panic!("expected upgrades"),
    }
}

#[test]
fn held_key_does_not_repeat_promotion() {
    let mut input = Input::init();
    input.register_keydown(KEY_LSHIFT);
    input.register_keydown(KEY_NUM1);
    input.refresh();
    match input.evolution_request(TankClass::Basic) {
        EvolutionRequest::Promote(v) => assert!(v.is_empty()),
        EvolutionRequest::Upgrade(_) => panic!("expected a promotion"),
    }
}
