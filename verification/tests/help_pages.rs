use arena::clash::content::gunslinger::GunslingerAmmo;
use arena::clash::help::{ammo_page, find_page, resources_page, HelpHeader, HelpInfo};
use arena::clash::{AmmoKind, Damage, DamageElement, SkillEffect, SkillInfo, StatusKind, TargetType};

fn title(help: &HelpInfo) -> Option<String> {
    match &help.header {
        HelpHeader::Text(t) => Some(t.clone()),
        HelpHeader::NoHeader => None,
        HelpHeader::Image(t, _) => Some(t.clone()),
    }
}

#[test]
fn top_level_page_links_topics() {
    let help = find_page("Top Level Help").unwrap();
    assert_eq!(Some("Help".to_string()), title(&help));
    assert_eq!(7, help.text.len());
    assert_eq!("[[Getting Started]]", help.text[0]);
    assert_eq!("[[Time]]", help.text[6]);
}

#[test]
fn aliases_reach_their_pages() {
    let help = find_page("Burning").unwrap();
    assert_eq!(Some("Temperature".to_string()), title(&help));
    assert_eq!("All characters in ArenaGS have a temperature value which slowly reduces towards 0.", help.text[0]);
    assert_eq!("- Temperatures above 100 will ignite a character in flames", help.text[4]);
    assert_eq!("|tab|- Burning does 2 [[piercing]] [[strength]] of damage every 100 [[ticks]].", help.text[5]);
    assert_eq!("- Temperatures below -100 will freeze a character.", help.text[8]);

    let help = find_page("ticks").unwrap();
    assert_eq!(Some("Time".to_string()), title(&help));
    assert_eq!("By default most actions consume 100 ticks and movement 100 ticks", help.text[2]);
}

#[test]
fn short_pages_have_no_header() {
    let help = find_page("Dodge").unwrap();
    assert!(matches!(help.header, HelpHeader::NoHeader));
    assert_eq!(
        vec!["A pool of dice which is consumed to reduce damage, and is replenished by movement.".to_string()],
        help.text
    );
    let help = find_page("armor").unwrap();
    assert_eq!(vec!["A pool of dice which applies every attack to reduce incoming damage.".to_string()], help.text);
}

#[test]
fn unknown_words_and_resources_have_no_page_here() {
    assert!(find_page("Snap Shot").is_none());
    assert!(find_page("Resources").is_none());
    assert!(find_page("").is_none());
}

#[test]
fn status_effects_page_is_empty() {
    let help = find_page("Status Effects").unwrap();
    assert_eq!(Some("Status Effects".to_string()), title(&help));
    assert!(help.text.is_empty());
}

#[test]
fn ammo_pages_list_attacks() {
    let help = ammo_page(GunslingerAmmo::Ignite);
    assert_eq!(Some("Ignite Bullets".to_string()), title(&help));
    let n = help.text.len();
    assert_eq!(
        vec!["[[Spark Shot]]", "[[Explosive Blast]]", "[[Dragon's Breath]]", "[[Hot Hands]]"],
        help.text[n - 4..].to_vec()
    );
    let help = find_page("Cyclone Bullets").unwrap();
    let n = help.text.len();
    assert_eq!("[[Lightning Speed]]", help.text[n - 1]);
    let help = find_page("Magnum Bullets").unwrap();
    let n = help.text.len();
    assert_eq!("[[Snap Shot]]", help.text[n - 4]);
}

#[test]
fn status_pages() {
    let help = HelpInfo::find_status(StatusKind::Burning);
    assert_eq!(Some("Burning".to_string()), title(&help));
    assert_eq!(
        vec!["Burning: Take 2 [[piercing]] damage every turn while [[temperature]] is above 100.".to_string()],
        help.text
    );
    let help = HelpInfo::find_status(StatusKind::Frozen);
    assert_eq!(vec!["Frozen: Movements take 150% longer while [[temperature]] is below -100.".to_string()], help.text);
    let help = HelpInfo::find_status(StatusKind::Regen);
    assert_eq!(vec!["Rapidly healing injuries. A 1 [[strength]] heal every turn.".to_string()], help.text);
    let aimed = find_page("Aimed").unwrap();
    assert_eq!(
        vec!["Focused on nailing the next shot. Next attack [[strength]] increased by 2.".to_string()],
        aimed.text
    );
    let magnum = HelpInfo::find_status(StatusKind::Magnum);
    assert_eq!(Some("Magnum Bullets".to_string()), title(&magnum));
    let charge = HelpInfo::find_status(StatusKind::StaticCharge);
    assert_eq!(Some("Static Charge".to_string()), title(&charge));
    assert_eq!(5, charge.text.len());
}

#[test]
fn resources_page_uses_given_numbers() {
    let help = resources_page("100", "5", "5", "0.1");
    assert_eq!(Some("Resources".to_string()), title(&help));
    assert_eq!(16, help.text.len());
    assert_eq!("|tab|- Starts at 0, with a maximum of 100. Reduces by 5 every 100 [[ticks].", help.text[5]);
    assert_eq!("|tab|- Standard movement costs 5 exhaustion.", help.text[6]);
    assert_eq!("|tab|- Starts at the maximum of 1.0 and increases by 0.1 every turn.", help.text[9]);
}

#[test]
fn skill_help_lists_costs() {
    let skill = SkillInfo::init_with_distance(
        "Aimed Shot",
        Some("gun_06_b.png"),
        TargetType::Enemy,
        SkillEffect::RangedAttack(Damage::init(6, DamageElement::PHYSICAL), arena::clash::combat::BoltKind::Bullet),
        Some(6),
        true,
    )
    .with_ammo(AmmoKind::Bullets, 1)
    .with_focus_use(50)
    .with_exhaustion(4000);
    let help = HelpInfo::get_skill_help("Aimed Shot", &skill);
    match &help.header {
        HelpHeader::Image(t, i) => {
            assert_eq!("Aimed Shot", t);
            assert_eq!("gun_06_b.png", i);
        }
        _ => panic!("expected an image header"),
    }
    assert_eq!(
        vec![
            "Ranged Attack",
            "[[Strength]]: 6",
            "Range: 6",
            "",
            "Costs 0.5 [[Focus]]",
            "Costs 40 [[Exhaustion]]",
            "Costs 1 Bullet(s)",
        ],
        help.text
    );
}

#[test]
fn skill_help_without_image_or_line() {
    let skill = SkillInfo::init("Dash", None, TargetType::Tile, SkillEffect::Move).with_no_time().with_focus_use(125);
    let help = HelpInfo::get_skill_help("Dash", &skill);
    assert_eq!(Some("Dash".to_string()), title(&help));
    assert!(matches!(help.header, HelpHeader::Text(_)));
    assert_eq!(
        vec!["Move to Location", "", "Costs 1.25 [[Focus]]", "Requires no Line of Sight.", "Requires no time to use."],
        help.text
    );
    let skill = SkillInfo::init("Wait", None, TargetType::NoTarget, SkillEffect::NoEffect).with_exhaustion(5);
    let help = HelpInfo::get_skill_help("Wait", &skill);
    assert_eq!(vec!["", "Costs 0.05 [[Exhaustion]]", "Requires no Line of Sight."], help.text);
}
