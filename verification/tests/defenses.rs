use arena::clash::defenses::apply_with_remain;
use arena::clash::{Damage, DamageElement, DamageOptions, Defenses, Resistances, Strength};
use rand::rngs::StdRng;
use rand::SeedableRng;

#[test]
fn apply_remain() {
    assert_eq!((2, 0), apply_with_remain(2, 5));
    assert_eq!((5, 0), apply_with_remain(5, 5));
    assert_eq!((5, 5), apply_with_remain(10, 5));
}

#[test]
fn no_defense_full_damage() {
    let mut rng = StdRng::seed_from_u64(42);
    let mut def = Defenses::just_health(10);
    def.apply_damage(Damage::init(4, DamageElement::PHYSICAL), &mut rng);
    // (2 * 2) + [2,4] = 6-8 damage
    assert!(def.health > 1);
    assert!(def.health < 5);
}

#[test]
fn no_defense_overkill_leaves_at_zero() {
    let mut rng = StdRng::seed_from_u64(42);
    let mut def = Defenses::just_health(10);
    def.apply_damage(Damage::init(10, DamageElement::PHYSICAL), &mut rng);
    assert_eq!(0, def.health);
}

#[test]
fn dodge_reduces_damage_up_to_strength() {
    let mut rng = StdRng::seed_from_u64(42);
    let mut def = Defenses::init(3, 0, 0, 10);
    def.apply_damage(Damage::init(4, DamageElement::PHYSICAL), &mut rng);
    // (2 * 2) + [2,4] = 6-8 damage
    // 2 + [2,4] = 4-6 dodge
    // 0 - 4 damage taken
    assert!(def.health > 5);
    assert_eq!(0, def.dodge);
}

#[test]
fn extra_dodge_saved_after_roll() {
    let mut rng = StdRng::seed_from_u64(42);
    let mut def = Defenses::init(5, 0, 0, 10);
    def.apply_damage(Damage::init(4, DamageElement::PHYSICAL), &mut rng);
    assert_eq!(1, def.dodge);
}

#[test]
fn regain_dodge() {
    let mut def = Defenses::just_health(10);
    def.max_dodge = 2;
    def.regain_dodge(3);
    assert_eq!(2, def.dodge);
}

#[test]
fn armor_reduces_every_hit() {
    let mut rng = StdRng::seed_from_u64(42);
    let mut def = Defenses::init(0, 1, 0, 10);
    def.apply_damage(Damage::init(4, DamageElement::PHYSICAL), &mut rng);
    // (2 * 2) + [2,4] = 6-8 damage
    // 1-2 armor
    // 4 - 7 damage taken
    assert!(def.health > 2);
    assert_eq!(1, def.armor);
}

#[test]
fn additional_armor() {
    let mut rng = StdRng::seed_from_u64(42);
    let mut def = Defenses::init(0, 0, 0, 10);
    def.apply_damage_with_additional_armor(Damage::init(4, DamageElement::PHYSICAL), 4, &mut rng);
    // (2 * 2) + [2,4] = 6-8 damage
    // 4-8 armor
    // 0 - 4 damage taken
    assert!(def.health > 5);
    assert_eq!(0, def.armor);
}

#[test]
fn dodge_used_even_if_armor_would_cover() {
    let mut rng = StdRng::seed_from_u64(42);
    let mut def = Defenses::init(4, 4, 0, 10);
    def.apply_damage(Damage::init(4, DamageElement::PHYSICAL), &mut rng);
    assert_eq!(0, def.dodge);
}

#[test]
fn absorb_takes_all_damage_before_life() {
    let mut rng = StdRng::seed_from_u64(42);
    let mut def = Defenses::just_health(10);
    def.absorb = 10;
    def.apply_damage(Damage::init(4, DamageElement::PHYSICAL), &mut rng);
    // (2 * 2) + [2,4] = 6-8 damage
    assert!(def.absorb > 1);
    assert!(def.absorb < 5);
    assert_eq!(10, def.health);
}

#[test]
fn reports_damage_after_mitigation() {
    let mut rng = StdRng::seed_from_u64(42);
    let mut def = Defenses::init(1, 1, 10, 10);
    let applied_damage = def.apply_damage(Damage::init(4, DamageElement::PHYSICAL), &mut rng);
    // (2 * 2) + [2,4] = 6-8 damage
    // Minus 2-4 Dodge/armor
    // 2-6 damage
    assert!(applied_damage.amount >= 2);
    assert!(applied_damage.amount <= 6);
}

#[test]
fn resistance_applies() {
    let mut rng = StdRng::seed_from_u64(42);
    let mut def = Defenses::init(0, 0, 0, 20).with_resistances(Resistances::init(&[(DamageElement::FIRE, 10)]));
    let applied_damage = def.apply_damage(Damage::init(4, DamageElement::FIRE), &mut rng);
    assert_eq!(0, applied_damage.amount);
    assert!(applied_damage.absorbed_by_resist > 0);
}

#[test]
fn mixed_resistance_applied_both() {
    let mut rng = StdRng::seed_from_u64(42);
    let mut def = Defenses::init(0, 1, 0, 20).with_resistances(Resistances::init(&[(DamageElement::FIRE, 10)]));
    let applied_damage = def.apply_damage(Damage::init(5, DamageElement::PHYSICAL | DamageElement::FIRE), &mut rng);
    assert!(applied_damage.amount > 0);
    assert!(applied_damage.absorbed_by_resist > 0);
    assert!(applied_damage.absorbed_by_armor > 0);
}

#[test]
fn base_value() {
    let mut rng = StdRng::seed_from_u64(42);
    let d = Strength::init(14);
    let v = d.roll(&mut rng);
    // 7 * 2 + 7 * (1,2) = 21 - 28
    assert_eq!(true, v >= 21 && v <= 28);
}

#[test]
fn rolled_damage_matches_hand_computation() {
    // damage 4 dice rolled to 7, dodge 1 die rolled to 2, armor 2 dice rolled to 3
    let mut def = Defenses::init(1, 2, 0, 10);
    let r = def.apply_damage_rolled(Damage::init(4, DamageElement::PHYSICAL), 0, 7, 2, &vec![3]);
    assert_eq!(2, r.absorbed_by_dodge);
    // after dodge: 5 left, each kind soaks at most 5: armor soaks 3
    assert_eq!(3, r.absorbed_by_armor);
    assert_eq!(0, r.absorbed_by_resist);
    assert_eq!(2, r.amount);
    assert_eq!(8, def.health);
    assert_eq!(0, def.dodge);
}

#[test]
fn pierce_ignores_dodge_and_armor() {
    let mut def = Defenses::init(3, 5, 0, 10);
    let damage = Damage::init(2, DamageElement::PHYSICAL).with_option(DamageOptions::PIERCE_DEFENSES);
    let r = def.apply_damage_rolled(damage, 0, 4, 0, &vec![]);
    assert_eq!(0, r.absorbed_by_dodge);
    assert_eq!(0, r.absorbed_by_armor);
    assert_eq!(4, r.amount);
    assert_eq!(6, def.health);
    assert_eq!(3, def.dodge);
}

#[test]
fn absorb_then_health() {
    let mut def = Defenses::init(0, 0, 3, 10);
    let r = def.apply_damage_rolled(Damage::init(4, DamageElement::PHYSICAL), 0, 6, 0, &vec![0]);
    assert_eq!(6, r.amount);
    assert_eq!(0, def.absorb);
    assert_eq!(7, def.health);
}

#[test]
fn split_damage_per_kind() {
    // two kinds share 8 damage: each soaks at most 4
    let mut def = Defenses::init(0, 10, 0, 20).with_resistances(Resistances::init(&[(DamageElement::FIRE, 10)]));
    let damage = Damage::init(4, DamageElement::PHYSICAL | DamageElement::FIRE);
    let r = def.apply_damage_rolled(damage, 0, 8, 0, &vec![15, 15]);
    assert_eq!(4, r.absorbed_by_armor);
    assert_eq!(4, r.absorbed_by_resist);
    assert_eq!(0, r.amount);
    assert_eq!(20, def.health);
}

#[test]
fn later_resistance_replaces_earlier() {
    let res = Resistances::init(&[(DamageElement::FIRE, 10), (DamageElement::ICE, 2), (DamageElement::FIRE, 4)]);
    assert_eq!(4, res.get(DamageElement::from_bits(DamageElement::FIRE)));
    assert_eq!(2, res.get(DamageElement::from_bits(DamageElement::ICE)));
    assert_eq!(0, res.get(DamageElement::from_bits(DamageElement::DARKNESS)));
    assert_eq!(2, res.all().len());
}

#[test]
fn regain_dodge_below_max() {
    let mut def = Defenses::init(5, 0, 0, 10);
    def.dodge = 1;
    def.regain_dodge(2);
    assert_eq!(3, def.dodge);
}

#[test]
fn strength_total_with_open_value() {
    let d = Strength::init(5);
    // two dice fixed at 2, three rolled summing to 4
    assert_eq!(8, d.total_with_open_value(4));
}
