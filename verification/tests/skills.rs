use arena::clash::{pay_for_skill, spend_cooldown, Cooldowns, SkillInfo, TargetType};
use arena::clash::combat::{BoltKind, WeaponKind};
use arena::clash::{
    adrenaline_gain, remaining_usages, skill_secondary_range, usable_result, AmmoInfo, AmmoKind, Damage, DamageElement, SkillEffect,
    SkillResources, UsableResults,
};

fn bullets_usage(resources: &SkillResources) -> Option<u32> {
    resources.get_ammo_usage(Some(AmmoInfo { kind: AmmoKind::Bullets, usage: 1 }))
}

#[test]
fn get_remaining_usages_with_ammo() {
    let resources = SkillResources::init(&[(AmmoKind::Bullets, 3, 3)]);
    assert_eq!(3, remaining_usages(bullets_usage(&resources), None, None).unwrap());
}

#[test]
fn get_remaining_usages_zero_ammo() {
    let resources = SkillResources::init(&[(AmmoKind::Bullets, 0, 0)]);
    assert_eq!(0, remaining_usages(bullets_usage(&resources), None, None).unwrap());
}

#[test]
fn get_remaining_usages_non_existent_ammo() {
    let resources = SkillResources::init(&[]);
    assert_eq!(0, remaining_usages(bullets_usage(&resources), None, None).unwrap());
}

#[test]
fn get_remaining_usages_skill_uses_no_ammo() {
    let resources = SkillResources::init(&[]);
    assert_eq!(true, remaining_usages(resources.get_ammo_usage(None), None, None).is_none());
}

#[test]
fn smallest_limit_wins() {
    assert_eq!(Some(2), remaining_usages(Some(5), Some(2), Some(7)));
    assert_eq!(Some(4), remaining_usages(None, Some(9), Some(4)));
    assert_eq!(UsableResults::LacksFocus, usable_result(Some(0), Some(0), Some(0)));
    assert_eq!(UsableResults::Exhaustion, usable_result(None, Some(0), Some(0)));
    assert_eq!(UsableResults::LacksAmmo, usable_result(Some(3), None, Some(0)));
    assert_eq!(UsableResults::Usable, usable_result(None, None, None));
}

#[test]
fn spend_and_reload() {
    let mut resources = SkillResources::init(&[(AmmoKind::Bullets, 6, 6), (AmmoKind::Adrenaline, 0, 100)]);
    resources.spend_ammo(Some(AmmoInfo { kind: AmmoKind::Bullets, usage: 2 }));
    assert_eq!(Some(4), resources.ammo.get(AmmoKind::Bullets));
    resources.reload(AmmoKind::Bullets, Some(1));
    assert_eq!(Some(5), resources.ammo.get(AmmoKind::Bullets));
    resources.reload(AmmoKind::Bullets, None);
    assert_eq!(Some(6), resources.ammo.get(AmmoKind::Bullets));
    resources.reload_core(AmmoKind::Bullets, 10);
    assert_eq!(Some(6), resources.ammo.get(AmmoKind::Bullets));
}

#[test]
fn gain_adrenaline_when_has_resource() {
    let mut resources = SkillResources::init(&[(AmmoKind::Adrenaline, 0, 100)]);
    let effect = SkillEffect::MoveAndShoot(Damage::init(3, DamageElement::PHYSICAL), Some(3), BoltKind::Bullet);
    resources.gain_adrenaline(adrenaline_gain(&effect));
    assert!(resources.ammo.get(AmmoKind::Adrenaline).unwrap() > 0);
    resources.gain_adrenaline(200);
    assert_eq!(Some(100), resources.ammo.get(AmmoKind::Adrenaline));
    let mut none = SkillResources::init(&[(AmmoKind::Bullets, 1, 1)]);
    none.gain_adrenaline(6);
    assert_eq!(None, none.ammo.get(AmmoKind::Adrenaline));
}

#[test]
fn adrenaline_per_effect() {
    assert_eq!(1, adrenaline_gain(&SkillEffect::Move));
    assert_eq!(6, adrenaline_gain(&SkillEffect::MeleeAttack(Damage::init(1, DamageElement::PHYSICAL), WeaponKind::Sword)));
    assert_eq!(3, adrenaline_gain(&SkillEffect::Reload(AmmoKind::Bullets)));
    assert_eq!(0, adrenaline_gain(&SkillEffect::Sequence(Box::new(SkillEffect::Move), Box::new(SkillEffect::Move))));
    assert_eq!(Some(3), skill_secondary_range(&SkillEffect::MoveAndShoot(Damage::init(3, DamageElement::PHYSICAL), Some(3), BoltKind::Bullet)));
    assert_eq!(None, skill_secondary_range(&SkillEffect::Move));
}

#[test]
fn cooldowns_count_down() {
    let mut resources = SkillResources::init(&[]);
    assert_eq!(0, resources.cooldown.get_or_start("Dash", 0));
    assert_eq!(3, resources.cooldown.get_or_start("Blink", 3));
    assert_eq!(3, resources.cooldown.get_or_start("Blink", 9));
    resources.cooldown.set("Dash", 150);
    resources.cooldown.tick(100);
    assert_eq!(50, resources.cooldown.get_or_start("Dash", 0));
    assert_eq!(0, resources.cooldown.get_or_start("Blink", 0));
}

#[test]
fn skill_cooldowns_start_and_spend() {
    let mut cooldowns = Cooldowns::new();
    let hatch = SkillInfo::init("Hatch", None, TargetType::NoTarget, SkillEffect::NoEffect).with_cooldown(400).with_cooldown_spent();
    let blast = SkillInfo::init("Blast", None, TargetType::NoTarget, SkillEffect::NoEffect).with_cooldown(100);
    assert_eq!(400, hatch.get_cooldown(&mut cooldowns));
    assert_eq!(0, blast.get_cooldown(&mut cooldowns));
    cooldowns.tick(150);
    assert_eq!(250, hatch.get_cooldown(&mut cooldowns));
    spend_cooldown(&mut cooldowns, &blast);
    assert_eq!(100, blast.get_cooldown(&mut cooldowns));
}

#[test]
fn paying_for_a_skill() {
    let mut resources = SkillResources::init(&[(AmmoKind::Bullets, 6, 6), (AmmoKind::Adrenaline, 98, 100)]);
    let shot = SkillInfo::init("Triple", None, TargetType::Enemy, SkillEffect::RangedAttack(Damage::init(4, DamageElement::PHYSICAL), BoltKind::Bullet))
        .with_ammo(AmmoKind::Bullets, 3)
        .with_cooldown(50);
    pay_for_skill(&mut resources, &shot);
    assert_eq!(Some(3), resources.ammo.get(AmmoKind::Bullets));
    assert_eq!(Some(100), resources.ammo.get(AmmoKind::Adrenaline));
    assert_eq!(50, shot.get_cooldown(&mut resources.cooldown));
}

fn can_invoke(resources: &mut SkillResources, skill: &SkillInfo) -> bool {
    let cooldown = skill.get_cooldown(&mut resources.cooldown);
    arena::clash::has_resources_for_skill(resources.get_ammo_usage(skill.ammo_info), cooldown)
}

#[test]
fn skill_with_cooldown_starts_usable() {
    let mut resources = SkillResources::init(&[]);
    let skill = SkillInfo::init("TestCooldown", None, TargetType::NoTarget, SkillEffect::NoEffect).with_cooldown(200);
    assert!(can_invoke(&mut resources, &skill));
    pay_for_skill(&mut resources, &skill);
    assert!(!can_invoke(&mut resources, &skill));
    resources.cooldown.tick(100);
    resources.cooldown.tick(100);
    assert!(can_invoke(&mut resources, &skill));
}

#[test]
fn skill_with_cooldown_starts_usable_unless_first_check() {
    let mut resources = SkillResources::init(&[]);
    let skill = SkillInfo::init("TestCooldownStartSpent", None, TargetType::NoTarget, SkillEffect::NoEffect)
        .with_cooldown(200)
        .with_cooldown_spent();
    assert!(!can_invoke(&mut resources, &skill));
    resources.cooldown.tick(100);
    resources.cooldown.tick(100);
    assert!(can_invoke(&mut resources, &skill));
    pay_for_skill(&mut resources, &skill);
    assert!(!can_invoke(&mut resources, &skill));
}
