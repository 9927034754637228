use arena::atlas::Point;
use arena::clash::progression::{
    can_purchase_expansion, can_purchase_selection, downgrade_counts, get_random_items, get_reward_request, purchase_expansion,
    purchase_selection, selection_cost, tally_rewards, CharacterWeaponKind, Equipment, EquipmentEffect, EquipmentItem, EquipmentKinds,
    EquipmentRarity, EquipmentResource, NameSet, ProgressionComponent, ProgressionState, SkillNodeStatus, SkillTree, SkillTreeNode,
};
use rand::rngs::StdRng;
use rand::SeedableRng;

#[test]
fn get_equip_cost() {
    assert_eq!(20, selection_cost(&EquipmentItem::init("a", None, EquipmentKinds::Weapon, EquipmentRarity::Common, &vec![])));
    assert_eq!(50, selection_cost(&EquipmentItem::init("a", None, EquipmentKinds::Weapon, EquipmentRarity::Uncommon, &vec![])));
    assert_eq!(100, selection_cost(&EquipmentItem::init("a", None, EquipmentKinds::Weapon, EquipmentRarity::Rare, &vec![])));
}

#[test]
fn can_purchase() {
    let mut progression = ProgressionComponent::init(ProgressionState::init(0, 0, &[], CharacterWeaponKind::Gunslinger, Equipment::init_empty()));
    assert_eq!(
        false,
        can_purchase_selection(&mut progression, &EquipmentItem::init("a", None, EquipmentKinds::Weapon, EquipmentRarity::Uncommon, &vec![]),)
    );
    progression.state.influence = 60;
    assert!(can_purchase_selection(
        &mut progression,
        &EquipmentItem::init("a", None, EquipmentKinds::Weapon, EquipmentRarity::Uncommon, &vec![]),
    ));
}

#[test]
fn purchase() {
    let mut progression = ProgressionComponent::init(ProgressionState::init(0, 60, &[], CharacterWeaponKind::Gunslinger, Equipment::init_empty()));
    purchase_selection(&mut progression, &EquipmentItem::init("a", None, EquipmentKinds::Weapon, EquipmentRarity::Uncommon, &vec![]));
    assert!(progression.state.items.contains("a"));
    assert_eq!(10, progression.state.influence);
}

#[test]
fn purchase_too_expensive_changes_nothing() {
    let mut progression = ProgressionComponent::init(ProgressionState::init(0, 40, &[], CharacterWeaponKind::Gunslinger, Equipment::init_empty()));
    purchase_selection(&mut progression, &EquipmentItem::init("a", None, EquipmentKinds::Weapon, EquipmentRarity::Uncommon, &vec![]));
    assert!(!progression.state.items.contains("a"));
    assert_eq!(40, progression.state.influence);
}

#[test]
fn expansion_purchase() {
    let mut progression = ProgressionComponent::init(ProgressionState::init(0, 100, &[], CharacterWeaponKind::Gunslinger, Equipment::init(1, 1, 1, 1)));
    assert!(can_purchase_expansion(&progression));
    purchase_expansion(&mut progression, EquipmentKinds::Armor);
    assert!(progression.state.has_unlock("Armor Store Expansion"));
    assert_eq!(2, progression.state.equipment.count(EquipmentKinds::Armor));
    purchase_expansion(&mut progression, EquipmentKinds::Armor);
    assert_eq!(2, progression.state.equipment.count(EquipmentKinds::Armor));
    assert_eq!(100, progression.state.influence);
    progression.state.influence = 99;
    assert!(!can_purchase_expansion(&progression));
}

#[test]
fn gunslinger_start() {
    let state = ProgressionState::init_gunslinger();
    assert!(state.has_unlock("Oversized Chamber"));
    assert!(!state.has_unlock("Weapon Expansion"));
    assert_eq!(3, state.equipment.count(EquipmentKinds::Weapon));
    assert_eq!(2, state.equipment.count(EquipmentKinds::Armor));
    assert_eq!(2, state.equipment.count(EquipmentKinds::Accessory));
    assert_eq!(1, state.equipment.count(EquipmentKinds::Mastery));
}

#[test]
fn name_set_counts_each_name_once() {
    let mut names = NameSet::from_strs(&["a", "b", "a"]);
    assert_eq!(2, names.len());
    assert!(!names.insert("b".to_string()));
    assert!(names.insert("c".to_string()));
    assert_eq!(3, names.len());
    assert!(NameSet::new().len() == 0);
}

fn state_with_deps(influence: u32, deps: &[&str]) -> ProgressionState {
    ProgressionState::init(0, influence, deps, CharacterWeaponKind::Gunslinger, Equipment::init_empty())
}

fn eq(name: &str) -> EquipmentItem {
    EquipmentItem::init(name, None, EquipmentKinds::Weapon, EquipmentRarity::Common, &[EquipmentEffect::NoEffect])
}

#[test]
fn all_has_selected() {
    let state = state_with_deps(0, &["Foo", "Bar"]);
    let tree = SkillTree::init(&[
        SkillTreeNode::with_equipment(eq("Foo"), Point::init(0, 0), 0, &[]),
        SkillTreeNode::with_equipment(eq("Bar"), Point::init(0, 0), 0, &[]),
        SkillTreeNode::with_equipment(eq("Buzz"), Point::init(0, 0), 0, &[]),
        SkillTreeNode::with_equipment(eq("Moo"), Point::init(0, 0), 100, &[]),
    ]);
    let all = tree.all(&state);
    assert_eq!(SkillNodeStatus::Selected, all.iter().find(|&a| a.0.name() == "Foo").unwrap().1);
    assert_eq!(SkillNodeStatus::Selected, all.iter().find(|&a| a.0.name() == "Bar").unwrap().1);
    assert_eq!(SkillNodeStatus::Available, all.iter().find(|&a| a.0.name() == "Buzz").unwrap().1);
    assert_eq!(SkillNodeStatus::Unavailable, all.iter().find(|&a| a.0.name() == "Moo").unwrap().1);
}

#[test]
fn can_select_dependencies() {
    let mut state = state_with_deps(0, &[]);
    let tree = SkillTree::init(&[
        SkillTreeNode::with_equipment(eq("Foo"), Point::init(0, 0), 0, &[]),
        SkillTreeNode::with_equipment(eq("Bar"), Point::init(0, 0), 0, &["Foo"]),
        SkillTreeNode::with_equipment(eq("Buzz"), Point::init(0, 0), 0, &["Bar"]),
    ]);
    assert!(tree.can_select(&state, "Foo"));
    assert_eq!(false, tree.can_select(&state, "Bar"));
    assert_eq!(false, tree.can_select(&state, "Buzz"));

    state.items.insert("Foo".to_string());
    assert!(!tree.can_select(&state, "Foo"));
    assert!(tree.can_select(&state, "Bar"));
    assert_eq!(false, tree.can_select(&state, "Buzz"));
}

#[test]
fn can_select_cost() {
    let mut state = state_with_deps(0, &[]);
    let tree = SkillTree::init(&[
        SkillTreeNode::with_equipment(eq("Foo"), Point::init(0, 0), 5, &[]),
        SkillTreeNode::with_equipment(eq("Bazz"), Point::init(0, 0), 10, &[]),
        SkillTreeNode::with_equipment(eq("Bar"), Point::init(0, 0), 5, &["Foo"]),
        SkillTreeNode::with_equipment(eq("Buzz"), Point::init(0, 0), 0, &["Bar"]),
    ]);
    assert_eq!(false, tree.can_select(&state, "Foo"));
    assert_eq!(false, tree.can_select(&state, "Bazz"));
    assert_eq!(false, tree.can_select(&state, "Bar"));
    assert_eq!(false, tree.can_select(&state, "Buzz"));

    state.influence = 5;
    assert!(tree.can_select(&state, "Foo"));
    assert_eq!(false, tree.can_select(&state, "Bazz"));
    assert_eq!(false, tree.can_select(&state, "Bar"));
    assert_eq!(false, tree.can_select(&state, "Buzz"));
}

#[test]
fn select() {
    let mut state = state_with_deps(7, &[]);
    let tree = SkillTree::init(&[
        SkillTreeNode::with_equipment(eq("Foo"), Point::init(0, 0), 5, &[]),
        SkillTreeNode::with_equipment(eq("Bazz"), Point::init(0, 0), 10, &[]),
        SkillTreeNode::with_equipment(eq("Bar"), Point::init(0, 0), 5, &["Foo"]),
        SkillTreeNode::with_equipment(eq("Buzz"), Point::init(0, 0), 0, &["Bar"]),
    ]);

    tree.select(&mut state, "Foo");
    assert_eq!(2, state.influence);
    assert!(state.items.contains("Foo"));
}

#[test]
fn select_already_selected() {
    let mut state = state_with_deps(10, &[]);
    let tree = SkillTree::init(&[
        SkillTreeNode::with_equipment(eq("Foo"), Point::init(0, 0), 5, &[]),
        SkillTreeNode::with_equipment(eq("Bazz"), Point::init(0, 0), 10, &[]),
        SkillTreeNode::with_equipment(eq("Bar"), Point::init(0, 0), 5, &["Foo"]),
        SkillTreeNode::with_equipment(eq("Buzz"), Point::init(0, 0), 0, &["Bar"]),
    ]);

    tree.select(&mut state, "Foo");
    assert_eq!(5, state.influence);
    tree.select(&mut state, "Foo");
    assert_eq!(5, state.influence);
}

#[test]
fn select_expansion() {
    let mut state = state_with_deps(10, &[]);
    let tree = SkillTree::init(&[
        SkillTreeNode::with_expansion(EquipmentKinds::Armor, 1, Point::init(0, 0), 5, &[]),
        SkillTreeNode::with_equipment(eq("Bazz"), Point::init(0, 0), 5, &["Armor Expansion"]),
    ]);

    tree.select(&mut state, "Armor Expansion");
    assert_eq!(1, state.equipment.count(EquipmentKinds::Armor));
    assert!(tree.can_select(&state, "Bazz"));
}

#[test]
fn select_multiple_expansions() {
    let mut state = state_with_deps(15, &[]);
    let tree = SkillTree::init(&[
        SkillTreeNode::with_expansion(EquipmentKinds::Armor, 1, Point::init(0, 0), 5, &[]),
        SkillTreeNode::with_expansion(EquipmentKinds::Armor, 2, Point::init(0, 0), 5, &["Armor Expansion"]),
        SkillTreeNode::with_expansion(EquipmentKinds::Armor, 3, Point::init(0, 0), 5, &["Armor Expansion II"]),
    ]);

    tree.select(&mut state, "Armor Expansion");
    assert_eq!(1, state.equipment.count(EquipmentKinds::Armor));
    assert!(tree.can_select(&state, "Armor Expansion II"));

    tree.select(&mut state, "Armor Expansion II");
    assert_eq!(2, state.equipment.count(EquipmentKinds::Armor));
    assert!(tree.can_select(&state, "Armor Expansion III"));

    tree.select(&mut state, "Armor Expansion III");
    assert_eq!(3, state.equipment.count(EquipmentKinds::Armor));
}

#[test]
fn node_names_and_images() {
    let first = SkillTreeNode::with_expansion(EquipmentKinds::Weapon, 1, Point::init(0, 0), 5, &[]);
    let fourth = SkillTreeNode::with_expansion(EquipmentKinds::Mastery, 4, Point::init(0, 0), 5, &[]);
    let item = SkillTreeNode::with_equipment(
        EquipmentItem::init("Sight", Some("gun.png"), EquipmentKinds::Weapon, EquipmentRarity::Standard, &[]),
        Point::init(1, 2),
        3,
        &["Weapon Expansion"],
    );
    assert_eq!("Weapon Expansion", first.name());
    assert_eq!("Mastery Expansion IV", fourth.name());
    assert_eq!("Sight", item.name());
    assert_eq!(Some("SpellBook05_09.png".to_string()), first.image());
    assert_eq!(Some("SpellBook05_38.png".to_string()), fourth.image());
    assert_eq!(Some("gun.png".to_string()), item.image());
    let tree = SkillTree::init(&[first, fourth, item]);
    assert_eq!(3, tree.icons().len());
    assert_eq!(3, tree.cost("Sight"));
}

#[test]
fn later_node_replaces_earlier() {
    let tree = SkillTree::init(&[
        SkillTreeNode::with_equipment(eq("Foo"), Point::init(0, 0), 5, &[]),
        SkillTreeNode::with_equipment(eq("Foo"), Point::init(0, 0), 9, &[]),
    ]);
    assert_eq!(9, tree.cost("Foo"));
    assert_eq!(1, tree.all(&state_with_deps(0, &[])).len());
}

fn item(name: &str, rarity: EquipmentRarity) -> EquipmentItem {
    EquipmentItem::init(name, None, EquipmentKinds::Accessory, rarity, &[EquipmentEffect::NoEffect])
}

#[test]
fn selects_items() {
    let equipments = EquipmentResource::init_with(&[
        item("a", EquipmentRarity::Common),
        item("b", EquipmentRarity::Common),
        item("c", EquipmentRarity::Common),
        item("d", EquipmentRarity::Common),
    ]);
    let progression = ProgressionComponent::init(ProgressionState::init(0, 0, &["a"], CharacterWeaponKind::Gunslinger, Equipment::init_empty()));
    let mut rng = StdRng::seed_from_u64(42);

    for _ in 0..10 {
        let chosen = get_random_items(&equipments, &progression, vec![(EquipmentRarity::Common, 2)], &mut rng);
        assert_eq!(2, chosen.len());
        assert!(chosen.iter().all(|c| c.name == "b" || c.name == "c" || c.name == "d"));
    }
}

#[test]
fn downgrades_when_too_few() {
    let equipments = EquipmentResource::init_with(&[
        item("a", EquipmentRarity::Common),
        item("b", EquipmentRarity::Common),
        item("c", EquipmentRarity::Common),
        item("d", EquipmentRarity::Uncommon),
        item("e", EquipmentRarity::Uncommon),
        item("f", EquipmentRarity::Rare),
    ]);
    let progression = ProgressionComponent::init(ProgressionState::init(0, 0, &["a"], CharacterWeaponKind::Gunslinger, Equipment::init_empty()));
    let mut rng = StdRng::seed_from_u64(42);

    for _ in 0..10 {
        let chosen = get_random_items(
            &equipments,
            &progression,
            vec![(EquipmentRarity::Common, 2), (EquipmentRarity::Uncommon, 2), (EquipmentRarity::Rare, 2)],
            &mut rng,
        );
        assert_eq!(5, chosen.len());
        assert!(chosen.iter().all(|c| c.name != "a"));
    }
}

#[test]
fn too_few_total_items() {
    let equipments = EquipmentResource::init_with(&[
        item("a", EquipmentRarity::Common),
        item("b", EquipmentRarity::Common),
        item("c", EquipmentRarity::Common),
    ]);
    let progression = ProgressionComponent::init(ProgressionState::init(0, 0, &["a"], CharacterWeaponKind::Gunslinger, Equipment::init_empty()));
    let mut rng = StdRng::seed_from_u64(42);

    for _ in 0..10 {
        let chosen = get_random_items(
            &equipments,
            &progression,
            vec![(EquipmentRarity::Common, 12), (EquipmentRarity::Uncommon, 2), (EquipmentRarity::Rare, 2)],
            &mut rng,
        );
        assert_eq!(2, chosen.len());
        assert!(chosen.iter().all(|c| c.name != "a"));
    }
}

#[test]
fn random_reward() {
    let mut rng = StdRng::seed_from_u64(42);
    let request = get_reward_request(&mut rng, 3);
    assert_eq!(3, request.iter().map(|r| r.1).sum::<u32>());
}

#[test]
fn result_order_is_common_uncommon_rare() {
    let equipments = EquipmentResource::init_with(&[
        item("c1", EquipmentRarity::Common),
        item("u1", EquipmentRarity::Uncommon),
        item("r1", EquipmentRarity::Rare),
    ]);
    let progression = ProgressionComponent::init(ProgressionState::init(0, 0, &[], CharacterWeaponKind::Gunslinger, Equipment::init_empty()));
    let mut rng = StdRng::seed_from_u64(7);
    let chosen = get_random_items(
        &equipments,
        &progression,
        vec![(EquipmentRarity::Rare, 1), (EquipmentRarity::Uncommon, 1), (EquipmentRarity::Common, 1)],
        &mut rng,
    );
    let names: Vec<String> = chosen.iter().map(|c| c.name.clone()).collect();
    assert_eq!(vec!["c1".to_string(), "u1".to_string(), "r1".to_string()], names);
}

#[test]
fn downgrade_cascade() {
    // 3 rare asked, 1 in stock: 2 passed to uncommon (now 3), 1 in stock: 2 passed to common (now 3)
    assert_eq!((1, 1, 3), downgrade_counts(3, 1, 1, 1, 1, 5));
    assert_eq!((2, 2, 2), downgrade_counts(2, 2, 2, 5, 5, 5));
    assert_eq!((0, 0, 2), downgrade_counts(2, 2, 12, 0, 0, 2));
}

#[test]
fn tally_counts_each_rarity_once() {
    let draws = vec![EquipmentRarity::Common, EquipmentRarity::Rare, EquipmentRarity::Common, EquipmentRarity::Common];
    let tally = tally_rewards(&draws);
    assert_eq!(vec![(EquipmentRarity::Common, 3), (EquipmentRarity::Rare, 1)], tally);
    assert_eq!(0, tally_rewards(&vec![]).len());
}
