use arena::clash::content::elementalist::{get_elemental_summon_to_use, remaining_elements, ElementalKind};
use rand::rngs::StdRng;
use rand::SeedableRng;
use arena::clash::content::gunslinger::{
    ammo_types_for_modes, base_resources, default_attack, default_attack_replacement, get_all_bases, get_all_trait_images, get_equipment,
    get_image_for_kind, get_image_for_status, get_skill_tree, get_weapon_skills, next_ammo, GunslingerAmmo,
};
use arena::clash::content::items;
use arena::clash::progression::EquipmentEffect;
use arena::clash::progression::{CharacterWeaponKind, Equipment, EquipmentKinds, EquipmentRarity, EquipmentResource, ProgressionState, SkillTree};
use arena::clash::{AmmoKind, StatusKind};

#[test]
fn rotate_ammo_no_holes() {
    let equipped = vec![GunslingerAmmo::Magnum, GunslingerAmmo::Ignite, GunslingerAmmo::Cyclone];
    assert_eq!(GunslingerAmmo::Ignite, next_ammo(GunslingerAmmo::Magnum, &equipped));
    assert_eq!(GunslingerAmmo::Cyclone, next_ammo(GunslingerAmmo::Ignite, &equipped));
    assert_eq!(GunslingerAmmo::Magnum, next_ammo(GunslingerAmmo::Cyclone, &equipped));
}

#[test]
fn rotate_ammo_with_holes() {
    let equipped = vec![GunslingerAmmo::Magnum, GunslingerAmmo::Cyclone];
    assert_eq!(GunslingerAmmo::Cyclone, next_ammo(GunslingerAmmo::Magnum, &equipped));
    assert_eq!(GunslingerAmmo::Magnum, next_ammo(GunslingerAmmo::Cyclone, &equipped));
}

#[test]
fn rotate_ammo_only_one() {
    let equipped = vec![GunslingerAmmo::Magnum];
    assert_eq!(GunslingerAmmo::Magnum, next_ammo(GunslingerAmmo::Magnum, &equipped));
}

#[test]
fn modes_become_ammo_with_magnum_first() {
    let modes = vec!["Ignite".to_string(), "Cyclone".to_string()];
    assert_eq!(vec![GunslingerAmmo::Magnum, GunslingerAmmo::Ignite, GunslingerAmmo::Cyclone], ammo_types_for_modes(&modes));
    let with_magnum = vec!["Cyclone".to_string(), "Magnum".to_string()];
    assert_eq!(vec![GunslingerAmmo::Cyclone, GunslingerAmmo::Magnum], ammo_types_for_modes(&with_magnum));
    assert_eq!(vec![GunslingerAmmo::Magnum], ammo_types_for_modes(&vec![]));
}

#[test]
fn weapon_skills_per_ammo() {
    let bases = get_all_bases();
    assert_eq!(vec!["Snap Shot", "Aimed Shot", "Triple Shot", "Quick Shot"], bases);
    assert_eq!(bases, get_weapon_skills(&bases, GunslingerAmmo::Magnum));
    assert_eq!(vec!["Spark Shot", "Explosive Blast", "Dragon's Breath", "Hot Hands"], get_weapon_skills(&bases, GunslingerAmmo::Ignite));
    assert_eq!(vec!["Airburst Shot", "Air Lance", "Tornado Shot", "Lightning Speed"], get_weapon_skills(&bases, GunslingerAmmo::Cyclone));
    assert_eq!("Snap Shot", default_attack());
    assert_eq!("Quick Shot", default_attack_replacement());
}

#[test]
fn ammo_images() {
    assert_eq!("b_31_1.png", get_image_for_kind(GunslingerAmmo::Ignite));
    assert_eq!("b_30.png", get_image_for_status(StatusKind::Magnum));
    assert_eq!(vec!["b_31_1.png", "b_40_02.png", "b_30.png"], get_all_trait_images());
    assert_eq!(vec![(AmmoKind::Bullets, 6, 6), (AmmoKind::Adrenaline, 0, 100)], base_resources());
}

#[test]
fn gunslinger_equipment_and_tree() {
    let equipment = get_equipment();
    assert_eq!(7, equipment.len());
    assert_eq!("Oversized Chamber", equipment[4].name);
    assert_eq!(vec!["Maximum Bullets: -3.".to_string(), "Weapon Strength: 2.".to_string()], equipment[4].description());
    let resource = EquipmentResource::init_with(&equipment);
    let nodes = get_skill_tree(&resource);
    assert_eq!(6, nodes.len());
    assert_eq!("Weapon Expansion II", nodes[4].name());
    let tree = SkillTree::init(&nodes);
    let mut state = ProgressionState::init(0, 10, &[], CharacterWeaponKind::Gunslinger, Equipment::init_empty());
    assert!(tree.can_select(&state, "Adjustable Sight"));
    assert!(!tree.can_select(&state, "Recoil Spring"));
    tree.select(&mut state, "Weapon Expansion");
    assert_eq!(1, state.equipment.count(EquipmentKinds::Weapon));
    assert!(tree.can_select(&state, "Weapon Expansion II"));
    assert_eq!(6, tree.icons().len());
}

#[test]
fn shared_equipment() {
    let equipment = items::get_equipment();
    assert_eq!(18, equipment.len());
    assert_eq!("Jump Boots", equipment[0].name);
    assert_eq!(EquipmentRarity::Rare, equipment[17].rarity);
    assert!(equipment.iter().all(|e| e.effect.is_empty()));
}

#[test]
fn elementalist_summons_missing_kinds() {
    assert_eq!(
        vec![ElementalKind::Water, ElementalKind::Fire, ElementalKind::Wind, ElementalKind::Earth],
        remaining_elements(&vec![])
    );
    // taking out water swaps earth into its place
    assert_eq!(vec![ElementalKind::Earth, ElementalKind::Fire, ElementalKind::Wind], remaining_elements(&vec![ElementalKind::Water]));
    let present = vec![ElementalKind::Water, ElementalKind::Fire, ElementalKind::Earth];
    assert_eq!(vec![ElementalKind::Wind], remaining_elements(&present));
    let mut rng = StdRng::seed_from_u64(3);
    for _ in 0..10 {
        assert_eq!("Summon Elemental (Wind)", get_elemental_summon_to_use(&present, &mut rng));
    }
}

#[test]
fn gunslinger_equipment_effects_are_the_unlocks_themselves() {
    let equipment = get_equipment();
    assert!(matches!(&equipment[0].effect[0], EquipmentEffect::UnlocksAbilityClass(k) if k == "Aimed Shot"));
    assert!(matches!(&equipment[1].effect[0], EquipmentEffect::UnlocksAbilityClass(k) if k == "Triple Shot"));
    assert!(matches!(&equipment[2].effect[0], EquipmentEffect::UnlocksAbilityClass(k) if k == "Quick Shot"));
    assert!(matches!(&equipment[3].effect[0], EquipmentEffect::UnlocksAbilityMode(k) if k == "Ignite"));
    assert!(matches!(&equipment[4].effect[0], EquipmentEffect::ModifiesResourceTotal(-3, k) if k == "Bullets"));
    assert!(matches!(&equipment[4].effect[1], EquipmentEffect::ModifiesWeaponStrength(2)));
}
