use arena::clash::content::gunslinger::get_all_bases;
use arena::clash::content::gunslinger_skills::{get_base_skill, instance_skills};
use arena::clash::help::{HelpHeader, HelpInfo, ResourceRates};
use arena::clash::{Damage, DamageElement, DamageOptions, SkillInfo, SkillsResource};

fn rates() -> ResourceRates {
    ResourceRates {
        max_exhaustion: "100".to_string(),
        exhaustion_per_100_ticks: "5".to_string(),
        exhaustion_cost_per_move: "5".to_string(),
        focus_per_100_ticks: "0.1".to_string(),
    }
}

fn gunslinger_skills() -> SkillsResource {
    let templates: Vec<SkillInfo> = get_all_bases().iter().map(|n| get_base_skill(n)).collect();
    let mut skills = SkillsResource::init();
    instance_skills(&get_all_bases(), &templates, &mut skills);
    skills
}

fn links(line: &str) -> Vec<String> {
    let mut found = vec![];
    let mut rest = line;
    while let Some(start) = rest.find("[[") {
        let after = &rest[start + 2..];
        match after.find("]]") {
            Some(end) => {
                found.push(after[..end].to_string());
                rest = &after[end + 2..];
            }
            None => break,
        }
    }
    found
}

fn check_links(link: &str, skills: &SkillsResource, seen: &mut Vec<String>) {
    if seen.iter().any(|s| s == link) {
        return;
    }
    seen.push(link.to_string());
    let help = HelpInfo::find(link, skills, &rates());
    assert!(!help.text.iter().any(|t| t.contains("Internal Help Error")), "{}", link);
    for line in &help.text {
        for l in links(line) {
            check_links(&l, skills, seen);
        }
    }
}

#[test]
fn help_has_no_unresolved_links() {
    let skills = gunslinger_skills();
    let mut seen = vec![];
    check_links("Top Level Help", &skills, &mut seen);
    assert!(seen.len() > 20);
}

#[test]
fn find_reaches_resources_skills_and_errors() {
    let skills = gunslinger_skills();
    let resources = HelpInfo::find("Resources", &skills, &rates());
    assert_eq!("|tab|- Standard movement costs 5 exhaustion.", resources.text[6]);

    let spark = HelpInfo::find("Spark Shot", &skills, &rates());
    match &spark.header {
        HelpHeader::Image(title, image) => {
            assert_eq!("Spark Shot", title);
            assert_eq!("gun_01_b.png", image);
        }
        _ => panic!("expected an image header"),
    }
    assert_eq!("Ranged Attack", spark.text[0]);
    assert_eq!("[[Strength]]: 3", spark.text[1]);
    assert_eq!("Raises [[temperature]] by 15", spark.text[2]);
    assert_eq!("Range: 8", spark.text[3]);
    assert_eq!("Costs 1 Bullet(s)", spark.text[5]);

    let missing = HelpInfo::find("Nothing Here", &skills, &rates());
    assert!(matches!(missing.header, HelpHeader::NoHeader));
    assert_eq!("Include 'Nothing Here' in the description.", missing.text[5]);

    let burning = HelpInfo::find("Burning", &skills, &rates());
    match &burning.header {
        HelpHeader::Text(t) => assert_eq!("Temperature", t),
        _ => panic!(),
    }
}

#[test]
fn field_and_orb_pages() {
    let damage = Damage::init(2, DamageElement::FIRE).with_option(DamageOptions::PIERCE_DEFENSES);
    let field = HelpInfo::find_field(&damage);
    match &field.header {
        HelpHeader::Text(t) => assert_eq!("Field", t),
        _ => panic!(),
    }
    assert_eq!(vec!["[[Strength]]: 2", "[[Pierce]] target's [[Armor]] and [[Dodge]]."], field.text);
    let orb = HelpInfo::find_orb(&damage);
    match &orb.header {
        HelpHeader::Text(t) => assert_eq!("Orb Projectile", t),
        _ => panic!(),
    }
    assert_eq!(field.text, orb.text);
}
