use arena::clash::help::{can_report_damage, can_report_effect};
use arena::clash::combat::{BoltKind, FieldEffect, FieldKind, SpawnKind, WeaponKind};
use arena::clash::help::{get_spawn_name, get_status_effect_name, help_topic, report_damage, report_skill_effect, top_level_topics, HelpHeader, HelpInfo};
use arena::clash::{AmmoKind, Damage, DamageElement, DamageOptions, SkillEffect, StatusKind};

fn damage(dice: u32, options: u32) -> Damage {
    Damage::init(dice, DamageElement::PHYSICAL).with_option(options)
}

fn lines(effect: &SkillEffect) -> Vec<String> {
    let mut details = vec![];
    report_skill_effect(&mut details, effect);
    details
}

#[test]
fn error_page_names_the_topic() {
    let help = HelpInfo::get_error("Unknown Topic");
    assert!(matches!(help.header, HelpHeader::NoHeader));
    assert_eq!(6, help.text.len());
    assert_eq!("|tab| Internal Help Error:", help.text[0]);
    assert_eq!("https://tinyurl.com/ArenaGS-Issue", help.text[3]);
    assert_eq!("Include 'Unknown Topic' in the description.", help.text[5]);
}

#[test]
fn text_header_keeps_title_and_lines() {
    let help = HelpInfo::text_header("Title", vec!["a".to_string(), "b".to_string()]);
    match help.header {
        HelpHeader::Text(t) => assert_eq!("Title", t),
        _ => panic!("expected a text header"),
    }
    assert_eq!(vec!["a".to_string(), "b".to_string()], help.text);
}

#[test]
fn help_words_lead_to_topics() {
    assert_eq!("Temperature", help_topic("Burning"));
    assert_eq!("Temperature", help_topic("ignite"));
    assert_eq!("Static Charge", help_topic("static charge"));
    assert_eq!("Time", help_topic("ticks"));
    assert_eq!("Damage & Defenses", help_topic("piercing"));
    assert_eq!("Strength in Depth", help_topic("strength"));
    assert_eq!("Defenses in Depth", help_topic("Defenses"));
    assert_eq!("Armor", help_topic("armor"));
    assert_eq!("Dodge", help_topic("Dodge"));
}

#[test]
fn top_level_lists_seven_topics() {
    let topics = top_level_topics();
    assert_eq!(7, topics.len());
    assert_eq!("Getting Started", topics[0]);
    assert_eq!("Time", topics[6]);
}

#[test]
fn names_of_spawns_and_statuses() {
    assert_eq!("Giant Bird", get_spawn_name(SpawnKind::Bird));
    assert_eq!("Bird", get_spawn_name(SpawnKind::BirdSpawn));
    assert_eq!("Static Charge", get_status_effect_name(StatusKind::StaticCharge));
    assert_eq!("Regen", get_status_effect_name(StatusKind::Regen));
}

#[test]
fn plain_damage_reports_strength_only() {
    let mut details = vec![];
    report_damage(&mut details, &damage(3, 0));
    assert_eq!(vec!["[[Strength]]: 3".to_string()], details);
}

#[test]
fn temperature_damage_reports_change() {
    let mut details = vec![];
    report_damage(&mut details, &damage(3, DamageOptions::RAISE_TEMPERATURE | DamageOptions::KNOCKBACK));
    assert_eq!(vec!["[[Strength]]: 3", "Raises [[temperature]] by 15", "Knocks target back."], details);

    let mut details = vec![];
    report_damage(&mut details, &damage(2, DamageOptions::LOWER_TEMPERATURE | DamageOptions::LARGE_TEMPERATURE_DELTA));
    assert_eq!(vec!["[[Strength]]: 2", "Lowers [[temperature]] by 40"], details);
}

#[test]
fn option_lines_come_in_order() {
    let mut details = vec!["before".to_string()];
    let all = DamageOptions::ADD_CHARGE_STATUS
        | DamageOptions::CONSUMES_CHARGE_DMG
        | DamageOptions::CONSUMES_CHARGE_KNOCKBACK
        | DamageOptions::PIERCE_DEFENSES
        | DamageOptions::TRIPLE_SHOT
        | DamageOptions::AIMED_SHOT;
    report_damage(&mut details, &damage(5, all));
    assert_eq!(
        vec![
            "before",
            "[[Strength]]: 5",
            "Applies [[static charge]].",
            "Consumes [[static charge]] to do 4 strength additional [[piercing]] damage.",
            "Consumes [[static charge]] to knockback target.",
            "[[Pierce]] target's [[Armor]] and [[Dodge]].",
            "Applies three instances of damage",
            "Grants '[[Aimed]]' effect.",
        ],
        details
    );
}

#[test]
fn skill_effect_lines() {
    assert!(lines(&SkillEffect::NoEffect).is_empty());
    assert_eq!(vec!["Move to Location"], lines(&SkillEffect::Move));
    assert_eq!(
        vec!["Ranged Attack", "[[Strength]]: 4"],
        lines(&SkillEffect::RangedAttack(damage(4, 0), BoltKind::Bullet))
    );
    assert_eq!(vec!["Reload all Bullet(s)"], lines(&SkillEffect::Reload(AmmoKind::Bullets)));
    assert_eq!(vec!["Reload 2 Feather(s)"], lines(&SkillEffect::ReloadSome(AmmoKind::Feathers, 2)));
    assert_eq!(
        vec!["Reload randomly between 2 and 5 Eggs(s)"],
        lines(&SkillEffect::ReloadSomeRandom(AmmoKind::Eggs, 5))
    );
    assert_eq!(
        vec!["Summon a Egg after 100 [[ticks]]"],
        lines(&SkillEffect::Field(FieldEffect::Spawn(SpawnKind::Egg), FieldKind::Fire))
    );
    assert_eq!(
        vec!["Damage every 100 [[ticks]] with 300 duration", "[[Strength]]: 1"],
        lines(&SkillEffect::Field(FieldEffect::SustainedDamage(damage(1, 0), 300), FieldKind::Lightning))
    );
    assert_eq!(vec!["Applies Aimed effect for -1 [[ticks]]."], lines(&SkillEffect::Buff(StatusKind::Aimed, -1)));
    assert_eq!(vec!["Summon a Simple Golem replacing itself."], lines(&SkillEffect::SpawnReplace(SpawnKind::SimpleGolem)));
}

#[test]
fn move_and_shoot_mentions_range_when_set() {
    assert_eq!(
        vec!["Move to target and shoot nearest enemy within range 3.", "[[Strength]]: 2"],
        lines(&SkillEffect::MoveAndShoot(damage(2, 0), Some(3), BoltKind::Bullet))
    );
    assert_eq!(
        vec!["Move to target and shoot nearest enemy.", "[[Strength]]: 2"],
        lines(&SkillEffect::MoveAndShoot(damage(2, 0), None, BoltKind::Bullet))
    );
}

#[test]
fn sequence_separates_parts() {
    let effect = SkillEffect::Sequence(
        Box::new(SkillEffect::MeleeAttack(damage(2, 0), WeaponKind::Sword)),
        Box::new(SkillEffect::ReloadAndRotateAmmo),
    );
    assert_eq!(
        vec!["Melee Attack", "[[Strength]]: 2", "|tab|Then", "Reload Bullets and rotates to next ammo type."],
        lines(&effect)
    );
}

#[test]
fn reportable_effects() {
    assert!(can_report_damage(&damage(3, DamageOptions::RAISE_TEMPERATURE)));
    assert!(can_report_damage(&damage(u32::MAX, 0)));
    assert!(!can_report_damage(&damage(u32::MAX / 5 + 1, DamageOptions::RAISE_TEMPERATURE)));
    assert!(!can_report_damage(&damage(u32::MAX / 20 + 1, DamageOptions::LOWER_TEMPERATURE | DamageOptions::LARGE_TEMPERATURE_DELTA)));
    assert!(can_report_damage(&damage(u32::MAX / 20, DamageOptions::LOWER_TEMPERATURE | DamageOptions::LARGE_TEMPERATURE_DELTA)));
    assert!(!can_report_effect(&SkillEffect::Buff(StatusKind::RegenTick, 1)));
    assert!(can_report_effect(&SkillEffect::Sequence(Box::new(SkillEffect::Move), Box::new(SkillEffect::Buff(StatusKind::Regen, 1)))));
}
