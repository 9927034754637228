use arena::clash::combat::BoltKind;
use arena::clash::content::gunslinger::{get_all_bases, GunslingerAmmo};
use arena::clash::content::gunslinger_skills::{get_base_skill, get_concrete_skill, instance_skills};
use arena::clash::{
    has_resources_for_skill, skill_needs_target_point, within_skill_range, AmmoInfo, AmmoKind, DamageElement, DamageOptions,
    SkillEffect, SkillInfo, SkillsResource, TargetType,
};

fn bases() -> Vec<SkillInfo> {
    get_all_bases().iter().map(|n| get_base_skill(n)).collect()
}

fn ranged(skill: &SkillInfo) -> (u32, u32, u32, BoltKind) {
    match &skill.effect {
        SkillEffect::RangedAttack(d, k) => (d.dice(), d.element.bits, d.options.bits, *k),
        _ => panic!("expected a ranged attack"),
    }
}

#[test]
fn base_skills() {
    let snap = get_base_skill("Default");
    assert_eq!("Snap Shot", snap.name);
    assert_eq!(Some("gun_08_b.png"), snap.image);
    assert_eq!(Some(7), snap.range);
    assert_eq!(Some(AmmoInfo { kind: AmmoKind::Bullets, usage: 1 }), snap.ammo_info);
    assert_eq!(Some("Reload"), snap.alternate);
    assert_eq!((4, DamageElement::PHYSICAL, 0, BoltKind::Bullet), ranged(&snap));

    let aimed = get_base_skill("Aimed Shot");
    assert_eq!(Some(50), aimed.focus_use);
    assert_eq!((6, DamageElement::PHYSICAL, DamageOptions::AIMED_SHOT, BoltKind::Bullet), ranged(&aimed));

    let triple = get_base_skill("Triple Shot");
    assert_eq!(Some(AmmoInfo { kind: AmmoKind::Bullets, usage: 3 }), triple.ammo_info);

    let quick = get_base_skill("Quick Shot");
    assert_eq!(Some(4000), quick.exhaustion);
    assert_eq!(TargetType::Tile, quick.target);
    assert!(matches!(quick.effect, SkillEffect::MoveAndShoot(_, Some(5), BoltKind::Bullet)));
}

#[test]
fn magnum_attacks_are_their_classes() {
    let templates = bases();
    let skill = get_concrete_skill("Triple Shot", GunslingerAmmo::Magnum, &templates);
    assert_eq!("Triple Shot", skill.name);
    assert_eq!(Some(4), skill.range);
    assert_eq!((4, DamageElement::PHYSICAL, DamageOptions::TRIPLE_SHOT, BoltKind::Bullet), ranged(&skill));
}

#[test]
fn ignite_attacks() {
    let templates = bases();
    let spark = get_concrete_skill("Spark Shot", GunslingerAmmo::Ignite, &templates);
    assert_eq!("Spark Shot", spark.name);
    assert_eq!(Some("gun_01_b.png"), spark.image);
    assert_eq!(Some(8), spark.range);
    assert_eq!((3, DamageElement::PHYSICAL, DamageOptions::RAISE_TEMPERATURE, BoltKind::FireBullet), ranged(&spark));
    assert_eq!(Some("Reload"), spark.alternate);

    let blast = get_concrete_skill("Explosive Blast", GunslingerAmmo::Ignite, &templates);
    assert_eq!(Some(7), blast.range);
    assert_eq!(Some(50), blast.focus_use);
    assert_eq!(
        (
            5,
            DamageElement::PHYSICAL | DamageElement::FIRE,
            DamageOptions::RAISE_TEMPERATURE | DamageOptions::LARGE_TEMPERATURE_DELTA,
            BoltKind::FireBullet
        ),
        ranged(&blast)
    );

    let breath = get_concrete_skill("Dragon's Breath", GunslingerAmmo::Ignite, &templates);
    assert_eq!(Some(6), breath.range);
    assert_eq!(
        (3, DamageElement::FIRE, DamageOptions::TRIPLE_SHOT | DamageOptions::RAISE_TEMPERATURE, BoltKind::FireBullet),
        ranged(&breath)
    );

    let hands = get_concrete_skill("Hot Hands", GunslingerAmmo::Ignite, &templates);
    assert_eq!(Some(1), hands.range);
    assert_eq!(Some(4000), hands.exhaustion);
    match hands.effect {
        SkillEffect::MoveAndShoot(d, range, kind) => {
            assert_eq!(3, d.dice());
            assert_eq!(DamageOptions::RAISE_TEMPERATURE, d.options.bits);
            assert_eq!(Some(5), range);
            assert_eq!(BoltKind::FireBullet, kind);
        }
        _ => panic!("expected a move and shoot"),
    }
}

#[test]
fn cyclone_attacks() {
    let templates = bases();
    let lance = get_concrete_skill("Air Lance", GunslingerAmmo::Cyclone, &templates);
    assert_eq!(Some(9), lance.range);
    assert_eq!((4, DamageElement::PHYSICAL, DamageOptions::CONSUMES_CHARGE_KNOCKBACK, BoltKind::AirBullet), ranged(&lance));

    let tornado = get_concrete_skill("Tornado Shot", GunslingerAmmo::Cyclone, &templates);
    assert_eq!(
        (
            3,
            DamageElement::PHYSICAL | DamageElement::LIGHTNING,
            DamageOptions::TRIPLE_SHOT | DamageOptions::CONSUMES_CHARGE_DMG,
            BoltKind::AirBullet
        ),
        ranged(&tornado)
    );

    let speed = get_concrete_skill("Lightning Speed", GunslingerAmmo::Cyclone, &templates);
    assert_eq!(Some("SpellBookPage09_39.png"), speed.image);
    assert!(matches!(speed.effect, SkillEffect::MoveAndShoot(_, Some(6), BoltKind::AirBullet)));
}

#[test]
fn first_template_of_a_name_is_used() {
    let mut templates = bases();
    templates.push(get_base_skill("Snap Shot").with_cooldown(5));
    let skill = get_concrete_skill("Airburst Shot", GunslingerAmmo::Cyclone, &templates);
    assert_eq!(None, skill.cooldown);
    assert_eq!(Some(9), skill.range);
}

#[test]
fn instancing_adds_every_attack() {
    let templates = bases();
    let mut skills = SkillsResource::init();
    instance_skills(&get_all_bases(), &templates, &mut skills);
    for name in [
        "Snap Shot", "Aimed Shot", "Triple Shot", "Quick Shot", "Spark Shot", "Explosive Blast", "Dragon's Breath", "Hot Hands",
        "Airburst Shot", "Air Lance", "Tornado Shot", "Lightning Speed", "Reload", "Swap Ammo",
    ] {
        assert!(skills.contains(name), "{}", name);
    }
    assert!(!skills.contains("Dash"));
    assert!(matches!(skills.get("Swap Ammo").effect, SkillEffect::ReloadAndRotateAmmo));
    assert!(matches!(skills.get("Reload").effect, SkillEffect::Reload(AmmoKind::Bullets)));
    let images = skills.all_skill_image_files();
    assert!(images.contains(&"b_45.png".to_string()));
    assert!(images.contains(&"SpellBookPage09_66.png".to_string()));
}

#[test]
fn adding_replaces_same_name() {
    let mut skills = SkillsResource::init();
    skills.add(SkillInfo::init("Dash", None, TargetType::Tile, SkillEffect::Move));
    skills.add(SkillInfo::init("Dash", Some("x.png"), TargetType::Tile, SkillEffect::Move).with_exhaustion(5000));
    assert!(skills.contains("Dash"));
    assert_eq!(Some(5000), skills.get("Dash").exhaustion);
    assert_eq!(vec!["x.png".to_string()], skills.all_skill_image_files());
}

#[test]
fn skill_builders() {
    let skill = SkillInfo::init("A", None, TargetType::Any, SkillEffect::NoEffect)
        .with_alternate("B")
        .with_cooldown(3)
        .with_cooldown_spent()
        .with_no_time();
    assert_eq!(Some("B"), skill.alternate);
    assert_eq!(Some(3), skill.cooldown);
    assert!(skill.start_cooldown_spent);
    assert!(skill.no_time);
    assert!(!skill.show_trail());
    assert!(skill.duplicate().no_time);
}

#[test]
fn targeting_and_resources() {
    assert!(!skill_needs_target_point(TargetType::NoTarget));
    assert!(skill_needs_target_point(TargetType::Tile));
    assert!(within_skill_range(Some(3), Some(3)));
    assert!(!within_skill_range(Some(3), Some(4)));
    assert!(within_skill_range(None, Some(40)));
    assert!(within_skill_range(Some(3), None));
    assert!(has_resources_for_skill(None, 0));
    assert!(has_resources_for_skill(Some(2), 0));
    assert!(!has_resources_for_skill(Some(0), 0));
    assert!(!has_resources_for_skill(Some(2), 1));
}
