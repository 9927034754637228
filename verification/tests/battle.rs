use arena::atlas::{Point, SizedPoint};
use arena::clash::battle::{apply_damage_to_character, apply_hit, complete_move, Combatant, STATUS_LENGTH};
use arena::clash::events::PostMoveAction;
use arena::clash::{Damage, DamageElement, DamageOptions, Defenses, Log, StatusKind, StatusStore};
use rand::rngs::StdRng;
use rand::SeedableRng;

fn combatant(name: &str, x: u32, y: u32, health: u32) -> Combatant {
    Combatant {
        name: name.to_string(),
        position: SizedPoint::init(x, y),
        defenses: Defenses::just_health(health),
        statuses: StatusStore::init(),
        movement: None,
    }
}

fn with_option(damage: Damage, option: u32) -> Damage {
    damage.with_option(option)
}

#[test]
fn flying_target_is_not_hit() {
    let mut rng = StdRng::seed_from_u64(7);
    let mut target = combatant("Bird", 2, 2, 10);
    target.statuses.add_trait(StatusKind::Flying);
    let mut log = Log::init();
    let r = apply_hit(&mut rng, &mut target, Damage::init(4, DamageElement::PHYSICAL), None, None, true, &mut log);
    assert!(r.is_none());
    assert_eq!(10, target.defenses.health);
    assert_eq!(0, log.logs.len());
}

#[test]
fn plain_hit_takes_health_and_logs() {
    let mut rng = StdRng::seed_from_u64(7);
    let mut target = combatant("Gunslinger", 2, 2, 20);
    let mut log = Log::init();
    let r = apply_hit(&mut rng, &mut target, Damage::init(2, DamageElement::PHYSICAL), None, None, true, &mut log).unwrap();
    assert_eq!(20 - r.amount, target.defenses.health);
    assert_eq!(1, log.logs.len());
    assert_eq!(format!("Gunslinger took {} damage (2 {{{{Sword}}}})", r.amount), log.logs[0]);
}

#[test]
fn knockback_moves_target_when_clear() {
    let mut rng = StdRng::seed_from_u64(7);
    let mut target = combatant("Bandit", 2, 3, 20);
    let mut log = Log::init();
    let damage = with_option(Damage::init(1, DamageElement::PHYSICAL), DamageOptions::KNOCKBACK);
    apply_hit(&mut rng, &mut target, damage, Some(Point::init(2, 2)), None, true, &mut log);
    // The knockback is a move that has begun: the target still stands where it was hit
    assert_eq!(SizedPoint::init(2, 3), target.position);
    assert_eq!(SizedPoint::init(2, 4), target.movement.as_ref().unwrap().0.new_position);
    assert_eq!(2, log.logs.len());
    assert_eq!("Bandit is knocked back.", log.logs[1]);
    let action = complete_move(&mut target);
    assert!(matches!(action, Some(PostMoveAction::CheckNewLocationDamage)));
    assert_eq!(SizedPoint::init(2, 4), target.position);
    assert!(target.movement.is_none());
}

#[test]
fn knockback_blocked_when_not_clear() {
    let mut rng = StdRng::seed_from_u64(7);
    let mut target = combatant("Bandit", 2, 3, 20);
    let mut log = Log::init();
    let damage = with_option(Damage::init(1, DamageElement::PHYSICAL), DamageOptions::KNOCKBACK);
    apply_hit(&mut rng, &mut target, damage, Some(Point::init(2, 2)), None, false, &mut log);
    assert_eq!(SizedPoint::init(2, 3), target.position);
    assert!(target.movement.is_none());
    assert_eq!(1, log.logs.len());
}

#[test]
fn charge_is_added_then_used_up() {
    let mut rng = StdRng::seed_from_u64(7);
    let mut target = combatant("Bandit", 2, 3, 40);
    let mut log = Log::init();
    let charging = with_option(Damage::init(1, DamageElement::PHYSICAL), DamageOptions::ADD_CHARGE_STATUS);
    apply_hit(&mut rng, &mut target, charging, None, None, true, &mut log);
    assert_eq!(Some(STATUS_LENGTH), target.statuses.duration(StatusKind::StaticCharge));
    assert_eq!("Bandit crackles with static electricity.", log.logs[1]);

    let consuming = with_option(Damage::init(1, DamageElement::PHYSICAL), DamageOptions::CONSUMES_CHARGE_DMG);
    apply_hit(&mut rng, &mut target, consuming, None, None, true, &mut log);
    assert!(!target.statuses.has(StatusKind::StaticCharge));
    assert_eq!(4, log.logs.len());
    assert!(log.logs[3].starts_with("Bandit took "));
    assert!(log.logs[3].ends_with(" damage (4 {{Sword}})"));
}

#[test]
fn aimed_shot_makes_source_take_aim() {
    let mut rng = StdRng::seed_from_u64(7);
    let mut target = combatant("Bandit", 2, 3, 20);
    let mut source = combatant("Gunslinger", 2, 2, 20);
    let mut log = Log::init();
    let damage = with_option(Damage::init(1, DamageElement::PHYSICAL), DamageOptions::AIMED_SHOT);
    apply_hit(&mut rng, &mut target, damage, Some(Point::init(2, 2)), Some(&mut source), true, &mut log);
    assert_eq!(Some(STATUS_LENGTH), source.statuses.duration(StatusKind::Aimed));
    assert_eq!("Gunslinger takes aim.", log.logs[1]);
}

#[test]
fn armored_target_takes_less() {
    let mut plain_rng = StdRng::seed_from_u64(11);
    let mut armored_rng = StdRng::seed_from_u64(11);
    let mut plain = combatant("Plain", 2, 2, 40);
    let mut armored = combatant("Armored", 2, 2, 40);
    armored.statuses.add_trait(StatusKind::Armored);
    let mut log = Log::init();
    let damage = Damage::init(6, DamageElement::PHYSICAL);
    let p = apply_hit(&mut plain_rng, &mut plain, damage, None, None, true, &mut log).unwrap();
    let a = apply_hit(&mut armored_rng, &mut armored, damage, None, None, true, &mut log).unwrap();
    assert_eq!(0, p.absorbed_by_armor);
    assert!(a.absorbed_by_armor > 0);
    assert!(a.amount <= p.amount);
}

#[test]
fn triple_shot_lands_three_times() {
    let mut rng = StdRng::seed_from_u64(5);
    let mut target = combatant("Bandit", 2, 3, 60);
    let mut source = Some(combatant("Gunslinger", 2, 2, 20));
    let mut log = Log::init();
    let damage = with_option(Damage::init(1, DamageElement::PHYSICAL), DamageOptions::TRIPLE_SHOT);
    let rolled = apply_damage_to_character(&mut rng, &mut target, damage, Some(Point::init(2, 2)), &mut source, true, &mut log);
    assert_eq!(3, rolled.len());
    let total: u32 = rolled.iter().map(|r| r.amount).sum();
    assert_eq!(60 - total, target.defenses.health);
    assert_eq!(3, log.logs.len());
}

#[test]
fn flying_target_takes_no_hit_of_an_attack() {
    let mut rng = StdRng::seed_from_u64(5);
    let mut target = combatant("Bird", 2, 3, 60);
    target.statuses.add_trait(StatusKind::Flying);
    let mut source = None;
    let mut log = Log::init();
    let damage = with_option(Damage::init(3, DamageElement::PHYSICAL), DamageOptions::TRIPLE_SHOT);
    let rolled = apply_damage_to_character(&mut rng, &mut target, damage, None, &mut source, true, &mut log);
    assert!(rolled.is_empty());
    assert_eq!(60, target.defenses.health);
    assert!(log.logs.is_empty());
}

#[test]
fn charged_triple_shot_knocks_back_on_second_hit() {
    let mut rng = StdRng::seed_from_u64(5);
    let mut target = combatant("Bandit", 2, 3, 60);
    let mut source = None;
    let mut log = Log::init();
    let damage = Damage::init(1, DamageElement::PHYSICAL)
        .with_option(DamageOptions::TRIPLE_SHOT)
        .with_option(DamageOptions::ADD_CHARGE_STATUS)
        .with_option(DamageOptions::CONSUMES_CHARGE_KNOCKBACK);
    apply_damage_to_character(&mut rng, &mut target, damage, Some(Point::init(2, 2)), &mut source, true, &mut log);
    assert_eq!(SizedPoint::init(2, 3), target.position);
    assert_eq!(SizedPoint::init(2, 4), target.movement.as_ref().unwrap().0.new_position);
    assert!(log.logs.iter().any(|l| l == "Bandit is knocked back."));
}

#[test]
fn knockback_decision_follows_options_and_charge() {
    let knock = DamageOptions::from_bits(DamageOptions::KNOCKBACK);
    let uses_charge = DamageOptions::from_bits(DamageOptions::CONSUMES_CHARGE_KNOCKBACK);
    let charging_triple = DamageOptions::from_bits(
        DamageOptions::CONSUMES_CHARGE_KNOCKBACK | DamageOptions::ADD_CHARGE_STATUS | DamageOptions::TRIPLE_SHOT,
    );
    assert!(arena::clash::battle::may_knock_back(&knock, false, false));
    assert!(!arena::clash::battle::may_knock_back(&knock, true, false));
    assert!(!arena::clash::battle::may_knock_back(&uses_charge, false, false));
    assert!(arena::clash::battle::may_knock_back(&uses_charge, false, true));
    assert!(arena::clash::battle::may_knock_back(&charging_triple, false, false));
}

#[test]
fn knockback_fits_near_the_map() {
    assert!(arena::clash::battle::knockback_fits(&Point::init(2, 2), &SizedPoint::init(2, 3)));
    assert!(!arena::clash::battle::knockback_fits(&Point::init(0, 0), &SizedPoint::init(0x7fff_ffff, 0)));
}
