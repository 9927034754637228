use arena::clash::progression::{Equipment, EquipmentEffect, EquipmentItem, EquipmentKinds, EquipmentRarity, EquipmentResource};

fn eq(name: &str) -> EquipmentItem {
    EquipmentItem::init(name, None, EquipmentKinds::Weapon, EquipmentRarity::Common, &[EquipmentEffect::NoEffect])
}

#[test]
fn add_empty_space() {
    let mut equipment = Equipment::init(2, 0, 0, 0);
    assert!(equipment.add(EquipmentKinds::Weapon, eq("Test"), 1));
    assert_eq!("Test", equipment.get(EquipmentKinds::Weapon, 1).unwrap().name);
}

#[test]
fn add_on_top() {
    let mut equipment = Equipment::init(2, 0, 0, 0);
    assert!(equipment.add(EquipmentKinds::Weapon, eq("Test"), 1));
    assert_eq!(false, equipment.add(EquipmentKinds::Weapon, eq("Test2"), 1));
    assert_eq!("Test", equipment.get(EquipmentKinds::Weapon, 1).unwrap().name);
}

#[test]
fn add_no_space() {
    let mut equipment = Equipment::init(2, 0, 0, 0);
    assert_eq!(false, equipment.add(EquipmentKinds::Weapon, eq("Test"), 3));
}

#[test]
fn add_zero_spaces() {
    let mut equipment = Equipment::init(0, 0, 0, 0);
    assert_eq!(false, equipment.add(EquipmentKinds::Weapon, eq("Test"), 0));
}

#[test]
fn remove_has_item() {
    let mut equipment = Equipment::init(2, 0, 0, 0);
    equipment.add(EquipmentKinds::Weapon, eq("Test"), 0);
    equipment.add(EquipmentKinds::Weapon, eq("Test2"), 1);

    assert!(equipment.remove(EquipmentKinds::Weapon, 0));
    assert_eq!(None, equipment.get(EquipmentKinds::Weapon, 0));
    assert_eq!("Test2", equipment.get(EquipmentKinds::Weapon, 1).unwrap().name);
}

#[test]
fn remove_empty() {
    let mut equipment = Equipment::init(2, 0, 0, 0);
    assert_eq!(false, equipment.remove(EquipmentKinds::Weapon, 1));
}

#[test]
fn count() {
    let equipment = Equipment::init(4, 3, 0, 0);
    assert_eq!(3, equipment.count(EquipmentKinds::Armor));
}

#[test]
fn all() {
    let mut equipment = Equipment::init(4, 3, 2, 1);
    equipment.add(EquipmentKinds::Weapon, eq("Weapon"), 1);
    equipment.add(EquipmentKinds::Armor, eq("Armor"), 2);
    let all = equipment.all();
    assert_eq!(None, all[0]);
    assert_eq!("Weapon", all[1].as_ref().unwrap().name);
    assert_eq!("Armor", all[6].as_ref().unwrap().name);
}

#[test]
fn find() {
    let mut equipment = Equipment::init(4, 3, 2, 1);
    equipment.add(EquipmentKinds::Weapon, eq("Weapon"), 2);
    equipment.add(EquipmentKinds::Armor, eq("Armor"), 1);
    equipment.add(EquipmentKinds::Armor, eq("Armor2"), 0);

    assert_eq!((EquipmentKinds::Weapon, 2), equipment.find("Weapon").unwrap());
    assert_eq!((EquipmentKinds::Armor, 0), equipment.find("Armor2").unwrap());
}

#[test]
fn has() {
    let mut equipment = Equipment::init(4, 3, 2, 1);
    equipment.add(EquipmentKinds::Weapon, eq("Weapon"), 2);
    equipment.add(EquipmentKinds::Armor, eq("Armor"), 1);
    equipment.add(EquipmentKinds::Armor, eq("Armor2"), 0);

    assert!(equipment.has("Weapon"));
    assert!(equipment.has("Armor2"));
    assert_eq!(false, equipment.has("Foo"));
}

#[test]
fn extend() {
    let mut equipment = Equipment::init(4, 3, 2, 1);

    equipment.extend(EquipmentKinds::Accessory, false);
    assert_eq!(3, equipment.count(EquipmentKinds::Accessory));
    equipment.extend(EquipmentKinds::Accessory, true);
    assert_eq!(4, equipment.count(EquipmentKinds::Accessory));
}

#[test]
fn extend_store_only_once() {
    let mut equipment = Equipment::init(4, 3, 2, 1);

    equipment.extend(EquipmentKinds::Accessory, true);
    assert_eq!(3, equipment.count(EquipmentKinds::Accessory));
    equipment.extend(EquipmentKinds::Accessory, true);
    assert_eq!(3, equipment.count(EquipmentKinds::Accessory));
}

#[test]
fn has_store_extension() {
    let mut equipment = Equipment::init(4, 3, 2, 1);

    assert_eq!(0, equipment.store_extensions().len());
    equipment.extend(EquipmentKinds::Accessory, true);
    assert_eq!(3, equipment.count(EquipmentKinds::Accessory));
    assert_eq!(1, equipment.store_extensions().len());
}

#[test]
fn find_looks_at_weapons_first() {
    let mut equipment = Equipment::init(1, 1, 0, 0);
    equipment.add(EquipmentKinds::Armor, eq("Same"), 0);
    equipment.add(EquipmentKinds::Weapon, eq("Same"), 0);
    assert_eq!((EquipmentKinds::Weapon, 0), equipment.find("Same").unwrap());
    assert_eq!(None, equipment.find("Other"));
}

#[test]
fn get_missing_slot() {
    let equipment = Equipment::init_empty();
    assert_eq!(None, equipment.get(EquipmentKinds::Mastery, 0));
    assert_eq!(0, equipment.count(EquipmentKinds::Mastery));
}

#[test]
fn description_lines() {
    let item = EquipmentItem::init(
        "Oversized Chamber",
        Some("gun_12_b.png"),
        EquipmentKinds::Weapon,
        EquipmentRarity::Uncommon,
        &[
            EquipmentEffect::ModifiesResourceTotal(-3, "Bullets".to_string()),
            EquipmentEffect::NoEffect,
            EquipmentEffect::ModifiesWeaponStrength(2),
            EquipmentEffect::UnlocksAbilityClass("Aimed Shot".to_string()),
            EquipmentEffect::UnlocksAbilityMode("Ignite".to_string()),
            EquipmentEffect::ModifiesSkillRange(1, "Quick Shot".to_string()),
            EquipmentEffect::ModifiesWeaponRange(-1),
            EquipmentEffect::ModifiesDodge(1),
            EquipmentEffect::ModifiesMaxHealth(10),
        ],
    );
    assert_eq!(
        vec![
            "Maximum Bullets: -3.".to_string(),
            "Weapon Strength: 2.".to_string(),
            "Unlocks Aimed Shot.".to_string(),
            "Unlocks Ignite abilities.".to_string(),
            "Quick Shot Range: 1.".to_string(),
            "Weapon Range: -1".to_string(),
            "Dodge: 1.".to_string(),
            "Health: 10.".to_string(),
        ],
        item.description()
    );
}

#[test]
fn resource_lookup() {
    let mut resource = EquipmentResource::init_with(&[eq("a"), eq("b")]);
    assert!(resource.contains("a"));
    assert!(!resource.contains("c"));
    resource.add(EquipmentItem::init("a", Some("x.png"), EquipmentKinds::Armor, EquipmentRarity::Rare, &[]));
    assert_eq!(EquipmentKinds::Armor, resource.get("a").kind);
    assert_eq!(2, resource.all().len());
}
