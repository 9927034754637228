use arena::clash::combat::WeaponKind;
use arena::clash::progression::{
    collect_attack_modes, collect_attack_skills, collect_defense_modifier, collect_resource_modifier, get_player_resources, Equipment, EquipmentEffect,
    EquipmentItem, EquipmentKinds, EquipmentRarity, ProgressionState,
};
use arena::clash::{AmmoKind, Damage, DamageElement, DamageOptions, SkillEffect, SkillInfo, TargetType};

fn equip_test_state(equip: &[(EquipmentKinds, EquipmentItem, usize)]) -> ProgressionState {
    let mut state = ProgressionState::init_gunslinger();
    state.equipment = Equipment::init(4, 4, 4, 4);
    for (kind, item, index) in equip {
        state.equipment.add(*kind, item.clone(), *index);
    }
    state
}

fn eq(name: &str, kind: EquipmentKinds, effect: &[EquipmentEffect], index: usize) -> (EquipmentKinds, EquipmentItem, usize) {
    (kind, EquipmentItem::init(name, None, kind, EquipmentRarity::Common, effect), index)
}

#[test]
fn defense_modifiers() {
    let state = equip_test_state(&[
        eq("a", EquipmentKinds::Armor, &[EquipmentEffect::ModifiesArmor(1), EquipmentEffect::ModifiesDodge(1)], 0),
        eq("b", EquipmentKinds::Armor, &[EquipmentEffect::ModifiesDodge(1)], 1),
        eq("c", EquipmentKinds::Armor, &[EquipmentEffect::ModifiesAbsorb(2), EquipmentEffect::ModifiesMaxHealth(2)], 2),
        eq("d", EquipmentKinds::Armor, &[EquipmentEffect::ModifiesAbsorb(1), EquipmentEffect::ModifiesMaxHealth(2)], 3),
    ]);
    let (dodge, armor, absorb, life) = collect_defense_modifier(&state.equipment);
    assert_eq!(2, dodge);
    assert_eq!(1, armor);
    assert_eq!(3, absorb);
    assert_eq!(4, life);
}

#[test]
fn resource_modifiers() {
    let state = equip_test_state(&[
        eq("a", EquipmentKinds::Weapon, &[EquipmentEffect::ModifiesResourceTotal(-1, "Bullets".to_string())], 0),
        eq("b", EquipmentKinds::Weapon, &[EquipmentEffect::ModifiesResourceTotal(-1, "Bullets".to_string())], 1),
    ]);

    let resources = collect_resource_modifier(&state.equipment);
    assert_eq!(1, resources.len());
    let (kind, delta) = resources[0];
    assert_eq!(AmmoKind::Bullets, kind);
    assert_eq!(-2, delta);
}

#[test]
fn attack_modes() {
    let state = equip_test_state(&[eq("a", EquipmentKinds::Weapon, &[EquipmentEffect::UnlocksAbilityMode("Inferno".to_string())], 0)]);

    let modes = collect_attack_modes(&state.equipment);
    assert_eq!(1, modes.len());
    assert_eq!("Inferno", modes[0]);
}

#[test]
fn player_resources_follow_bullet_bonus() {
    let state = equip_test_state(&[eq("a", EquipmentKinds::Weapon, &[EquipmentEffect::ModifiesResourceTotal(-1, "Bullets".to_string())], 0)]);
    assert_eq!(vec![(AmmoKind::Bullets, 5, 5), (AmmoKind::Adrenaline, 0, 100)], get_player_resources(&state.equipment));
    let plain = equip_test_state(&[]);
    assert_eq!(vec![(AmmoKind::Bullets, 6, 6), (AmmoKind::Adrenaline, 0, 100)], get_player_resources(&plain.equipment));
    assert_eq!(0, collect_resource_modifier(&plain.equipment).len());
}

#[test]
fn effects_counted_across_kinds() {
    let state = equip_test_state(&[
        eq("w", EquipmentKinds::Weapon, &[EquipmentEffect::ModifiesDodge(-2)], 3),
        eq("m", EquipmentKinds::Mastery, &[EquipmentEffect::ModifiesDodge(5), EquipmentEffect::UnlocksAbilityMode("Ignite".to_string())], 0),
        eq("x", EquipmentKinds::Accessory, &[EquipmentEffect::UnlocksAbilityMode("Cyclone".to_string())], 1),
    ]);
    assert_eq!((3, 0, 0, 0), collect_defense_modifier(&state.equipment));
    assert_eq!(vec!["Cyclone".to_string(), "Ignite".to_string()], collect_attack_modes(&state.equipment));
}

fn lookup(entries: Vec<(&str, SkillInfo)>) -> Vec<(String, SkillInfo)> {
    entries.into_iter().map(|(n, s)| (n.to_string(), s)).collect()
}

#[test]
fn attack_skills_default() {
    let state = equip_test_state(&[]);
    let skills = collect_attack_skills(
        &state.equipment,
        &lookup(vec![("Default", SkillInfo::init("Basic Attack", None, TargetType::Any, SkillEffect::NoEffect))]),
    );
    assert_eq!(1, skills.len());
    assert_eq!("Basic Attack", skills[0].name);
}

#[test]
fn attack_skills_skill_unlock() {
    let state = equip_test_state(&[eq(
        "a",
        EquipmentKinds::Weapon,
        &[EquipmentEffect::UnlocksAbilityClass("Quick Shot".to_string())],
        0,
    )]);
    let skills = collect_attack_skills(
        &state.equipment,
        &lookup(vec![("Quick Shot", SkillInfo::init("Quick Shot", None, TargetType::Any, SkillEffect::NoEffect))]),
    );
    assert_eq!(1, skills.len());
    assert_eq!("Quick Shot", skills[0].name);
}

#[test]
fn attack_skills_weapon_range() {
    let state = equip_test_state(&[eq(
        "a",
        EquipmentKinds::Weapon,
        &[EquipmentEffect::UnlocksAbilityClass("Quick Shot".to_string()), EquipmentEffect::ModifiesWeaponRange(-1)],
        0,
    )]);
    let skills = collect_attack_skills(
        &state.equipment,
        &lookup(vec![(
            "Quick Shot",
            SkillInfo::init_with_distance("Quick Shot", None, TargetType::Any, SkillEffect::NoEffect, Some(5), true),
        )]),
    );
    assert_eq!(1, skills.len());
    assert_eq!(Some(4), skills[0].range);
}

#[test]
fn attack_skills_weapon_damage() {
    let state = equip_test_state(&[eq("a", EquipmentKinds::Weapon, &[EquipmentEffect::ModifiesWeaponStrength(1)], 0)]);
    let skills = collect_attack_skills(
        &state.equipment,
        &lookup(vec![(
            "Default",
            SkillInfo::init_with_distance(
                "Basic Attack",
                None,
                TargetType::Any,
                SkillEffect::MeleeAttack(Damage::init(3, DamageElement::PHYSICAL), WeaponKind::Sword),
                Some(5),
                true,
            ),
        )]),
    );
    assert_eq!(1, skills.len());
    match skills[0].effect {
        SkillEffect::MeleeAttack(damage, _) => assert_eq!(4, damage.dice()),
        _ => panic!(),
    }
}

#[test]
fn attack_skills_skill_range() {
    let state = equip_test_state(&[eq(
        "a",
        EquipmentKinds::Weapon,
        &[
            EquipmentEffect::UnlocksAbilityClass("Quick Shot".to_string()),
            EquipmentEffect::ModifiesSkillRange(-1, "Quick Shot".to_string()),
        ],
        0,
    )]);
    let skills = collect_attack_skills(
        &state.equipment,
        &lookup(vec![(
            "Quick Shot",
            SkillInfo::init_with_distance("Quick Shot", None, TargetType::Any, SkillEffect::NoEffect, Some(5), true),
        )]),
    );
    assert_eq!(1, skills.len());
    assert_eq!(Some(4), skills[0].range);
}

#[test]
fn attack_skills_additional_unlock() {
    let state = equip_test_state(&[eq(
        "a",
        EquipmentKinds::Weapon,
        &[EquipmentEffect::UnlocksAbilityClass("Triple Shot".to_string())],
        0,
    )]);
    let skills = collect_attack_skills(
        &state.equipment,
        &lookup(vec![
            ("Default", SkillInfo::init_with_distance("Snap Shot", None, TargetType::Any, SkillEffect::NoEffect, Some(5), true)),
            ("Triple Shot", SkillInfo::init_with_distance("Triple Shot", None, TargetType::Any, SkillEffect::NoEffect, Some(5), true)),
        ]),
    );
    assert_eq!(2, skills.len());
}

#[test]
fn attack_skills_skill_damage() {
    let state = equip_test_state(&[eq(
        "a",
        EquipmentKinds::Weapon,
        &[EquipmentEffect::ModifiesSkillStrength(1, "Basic Attack".to_string())],
        0,
    )]);
    let skills = collect_attack_skills(
        &state.equipment,
        &lookup(vec![(
            "Default",
            SkillInfo::init_with_distance(
                "Basic Attack",
                None,
                TargetType::Any,
                SkillEffect::MeleeAttack(Damage::init(3, DamageElement::PHYSICAL), WeaponKind::Sword),
                Some(5),
                true,
            ),
        )]),
    );
    assert_eq!(1, skills.len());
    match skills[0].effect {
        SkillEffect::MeleeAttack(damage, _) => assert_eq!(4, damage.dice()),
        _ => panic!(),
    }
}

#[test]
fn attack_bonuses_combine_and_drop_options() {
    let state = equip_test_state(&[
        eq(
            "a",
            EquipmentKinds::Weapon,
            &[
                EquipmentEffect::UnlocksAbilityClass("Triple".to_string()),
                EquipmentEffect::ModifiesWeaponRange(2),
                EquipmentEffect::ModifiesWeaponStrength(-1),
            ],
            0,
        ),
        eq(
            "b",
            EquipmentKinds::Armor,
            &[EquipmentEffect::ModifiesSkillRange(1, "Triple".to_string()), EquipmentEffect::ModifiesSkillStrength(3, "Other".to_string())],
            0,
        ),
    ]);
    let triple = SkillInfo::init_with_distance(
        "Triple",
        None,
        TargetType::Enemy,
        SkillEffect::RangedAttack(
            Damage::init(4, DamageElement::FIRE).with_option(DamageOptions::TRIPLE_SHOT),
            arena::clash::combat::BoltKind::Bullet,
        ),
        Some(4),
        true,
    );
    let quick = SkillInfo::init("Quick Shot", None, TargetType::Tile, SkillEffect::Move);
    let skills = collect_attack_skills(&state.equipment, &lookup(vec![("Triple", triple), ("Default", quick)]));
    assert_eq!(2, skills.len());
    assert_eq!(Some(7), skills[0].range);
    match skills[0].effect {
        SkillEffect::RangedAttack(damage, _) => {
            assert_eq!(3, damage.dice());
            assert_eq!(DamageElement::FIRE, damage.element.bits);
            assert_eq!(0, damage.options.bits);
        }
        _ => panic!(),
    }
    assert_eq!("Quick Shot", skills[1].name);
    assert_eq!(None, skills[1].range);
}

#[test]
fn quick_shot_replaces_default_attack() {
    let state = equip_test_state(&[eq(
        "a",
        EquipmentKinds::Weapon,
        &[EquipmentEffect::UnlocksAbilityClass("Quick".to_string()), EquipmentEffect::ModifiesWeaponRange(-3)],
        0,
    )]);
    let quick = SkillInfo::init_with_distance("Quick Shot", None, TargetType::Tile, SkillEffect::Move, Some(1), true);
    let skills = collect_attack_skills(&state.equipment, &lookup(vec![("Quick", quick)]));
    assert_eq!(1, skills.len());
    assert_eq!(Some(u32::MAX - 1), skills[0].range);
}
