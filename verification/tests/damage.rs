use arena::atlas::{Point, SizedPoint};
use arena::clash::{damage_reactions, hit_count, knockback_destination, Damage, DamageElement, DamageOptions};

fn options(bits: u32) -> DamageOptions {
    DamageOptions::from_bits(bits)
}

#[test]
fn knockback_moves_away_from_source() {
    let moved = knockback_destination(&Point::init(2, 2), &SizedPoint::init(2, 3));
    assert_eq!(Some(SizedPoint::init(2, 4)), moved);
    let diagonal = knockback_destination(&Point::init(1, 1), &SizedPoint::init(4, 3));
    assert_eq!(Some(SizedPoint::init(5, 4)), diagonal);
}

#[test]
fn knockback_against_a_wall_stays() {
    assert_eq!(None, knockback_destination(&Point::init(2, 1), &SizedPoint::init(2, 0)));
}

#[test]
fn plain_knockback() {
    let r = damage_reactions(&options(DamageOptions::KNOCKBACK), false, None);
    assert!(r.knockback);
    assert!(!r.knockback_uses_charge);
    assert!(!r.add_charge && !r.charge_damage && !r.aim_source);
}

#[test]
fn add_charge_on_hit_only_once() {
    let first = damage_reactions(&options(DamageOptions::ADD_CHARGE_STATUS), false, None);
    assert!(first.add_charge);
    let second = damage_reactions(&options(DamageOptions::ADD_CHARGE_STATUS), true, None);
    assert!(!second.add_charge);
}

#[test]
fn consumes_charge_for_damage() {
    let r = damage_reactions(&options(DamageOptions::CONSUMES_CHARGE_DMG), true, None);
    assert!(r.charge_damage);
    let none = damage_reactions(&options(DamageOptions::CONSUMES_CHARGE_DMG), false, None);
    assert!(!none.charge_damage);
}

#[test]
fn consumes_charge_for_knockback() {
    let r = damage_reactions(&options(DamageOptions::CONSUMES_CHARGE_KNOCKBACK), true, None);
    assert!(r.knockback && r.knockback_uses_charge);
    let none = damage_reactions(&options(DamageOptions::CONSUMES_CHARGE_KNOCKBACK), false, None);
    assert!(!none.knockback);
}

#[test]
fn charge_used_for_knockback_is_gone_for_damage() {
    let both = DamageOptions::CONSUMES_CHARGE_KNOCKBACK | DamageOptions::CONSUMES_CHARGE_DMG;
    let r = damage_reactions(&options(both), true, None);
    assert!(r.knockback_uses_charge);
    assert!(!r.charge_damage);
    let added = DamageOptions::ADD_CHARGE_STATUS | DamageOptions::CONSUMES_CHARGE_DMG;
    let r = damage_reactions(&options(added), false, None);
    assert!(r.add_charge && r.charge_damage);
}

#[test]
fn aimed_shot_needs_an_unaimed_source() {
    assert!(damage_reactions(&options(DamageOptions::AIMED_SHOT), false, Some(false)).aim_source);
    assert!(!damage_reactions(&options(DamageOptions::AIMED_SHOT), false, Some(true)).aim_source);
    assert!(!damage_reactions(&options(DamageOptions::AIMED_SHOT), false, None).aim_source);
}

#[test]
fn triple_shot_hits_three_times() {
    let single = Damage::init(3, DamageElement::PHYSICAL);
    assert_eq!(1, hit_count(&single));
    assert_eq!(3, hit_count(&single.with_option(DamageOptions::TRIPLE_SHOT)));
}

#[test]
fn damage_builders() {
    let d = Damage::init(3, DamageElement::FIRE | DamageElement::ICE).with_option(DamageOptions::KNOCKBACK);
    assert_eq!(3, d.dice());
    assert_eq!(5, d.more_strength(2).dice());
    assert_eq!(2, d.element.count());
    assert!(d.options.contains(DamageOptions::from_bits(DamageOptions::KNOCKBACK)));
    assert!(!d.options.contains(DamageOptions::from_bits(DamageOptions::PIERCE_DEFENSES)));
}
