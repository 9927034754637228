use arena::clash::help::{ammo_summary, defense_summary, linkify, status_summary, temperature_summary};
use arena::clash::{AmmoKind, Defenses, SkillResources};

#[test]
fn linkify_wraps_only_when_asked() {
    assert_eq!("[[Health]]", linkify("Health", true));
    assert_eq!("Health", linkify("Health", false));
}

#[test]
fn defense_summary_lines() {
    let defenses = Defenses::init(2, 1, 0, 20);
    assert_eq!(vec!["Health: 20/20", "Dodge: 2/2", "Armor: 1"], defense_summary(&defenses, false));

    let mut shielded = Defenses::init(0, 0, 5, 20);
    shielded.health = 15;
    assert_eq!(vec!["[[Health]]: (+5) 15/20"], defense_summary(&shielded, true));
}

#[test]
fn ammo_summary_in_kind_order() {
    let mut resources = SkillResources::init(&[(AmmoKind::Adrenaline, 0, 100), (AmmoKind::Bullets, 6, 6)]);
    resources.ammo.set(AmmoKind::Bullets, 3);
    assert_eq!(vec!["Bullets: 3/6", "Adrenaline: 0/100"], ammo_summary(&resources, false));
    assert_eq!(vec!["[[Bullets]]: 3/6", "[[Adrenaline]]: 0/100"], ammo_summary(&resources, true));
    let none = SkillResources::init(&[]);
    assert!(ammo_summary(&none, false).is_empty());
}

#[test]
fn temperature_summary_hides_zero() {
    assert!(temperature_summary(0, true).is_empty());
    assert_eq!(vec!["Temperature: -40"], temperature_summary(-40, false));
    assert_eq!(vec!["[[Temperature]]: 120"], temperature_summary(120, true));
}

#[test]
fn status_summary_joins_names() {
    assert!(status_summary(&vec![], true).is_empty());
    assert_eq!(vec!["Status: Burning"], status_summary(&vec!["Burning".to_string()], false));
    assert_eq!(
        vec!["Status: [[Burning]] [[Aimed]]"],
        status_summary(&vec!["Burning".to_string(), "Aimed".to_string()], true)
    );
}
