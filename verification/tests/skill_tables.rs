use arena::clash::combat::{BoltKind, FieldEffect, FieldKind, SpawnKind};
use arena::clash::content::bird::bird_skills;
use arena::clash::content::elementalist::{elementalist_skills, HEALING_MIST_RANGE, MAGMA_ERUPTION_RANGE};
use arena::clash::{AmmoInfo, AmmoKind, DamageOptions, SkillEffect, SkillsResource, StatusKind, TargetType};

#[test]
fn elementalist_table() {
    let mut m = SkillsResource::init();
    elementalist_skills(&mut m);
    for name in [
        "Tidal Surge", "Ice Shard", "Healing Mist", "Magma Eruption", "Lava Bolt", "Lightning Surge", "Hailstone", "Earthen Rage",
        "Rock Slide", "Pummel", "Summon Elemental (Water)", "Summon Elemental (Fire)", "Summon Elemental (Wind)",
        "Summon Elemental (Earth)", "Frost Armor", "Invoke the Elements", "Call Lightning",
    ] {
        assert!(m.contains(name), "{}", name);
    }
    let surge = m.get("Tidal Surge");
    assert_eq!(TargetType::AnyoneButSelf, surge.target);
    assert_eq!(Some(200), surge.cooldown);
    match surge.effect {
        SkillEffect::ConeAttack(d, _, size) => {
            assert_eq!(3, d.dice());
            assert_eq!(DamageOptions::KNOCKBACK, d.options.bits);
            assert_eq!(2, size);
        }
        _ => panic!(),
    }
    assert_eq!(Some(HEALING_MIST_RANGE), m.get("Healing Mist").range);
    let magma = m.get("Magma Eruption");
    assert_eq!(Some(MAGMA_ERUPTION_RANGE), magma.range);
    assert!(matches!(magma.effect, SkillEffect::Field(FieldEffect::SustainedDamage(_, 6), FieldKind::Fire)));
    let water = m.get("Summon Elemental (Water)");
    assert_eq!(Some(AmmoInfo { kind: AmmoKind::Charge, usage: 60 }), water.ammo_info);
    assert!(matches!(water.effect, SkillEffect::Spawn(SpawnKind::WaterElemental)));
    match m.get("Frost Armor").effect {
        SkillEffect::Sequence(first, second) => {
            assert!(matches!(*first, SkillEffect::Buff(StatusKind::Armored, 2000)));
            assert!(matches!(*second, SkillEffect::ReloadSome(AmmoKind::Charge, 5)));
        }
        _ => panic!(),
    }
}

#[test]
fn bird_table() {
    let mut m = SkillsResource::init();
    bird_skills(&mut m);
    let blast = m.get("Wing Blast");
    assert!(blast.must_be_clear);
    assert!(matches!(blast.effect, SkillEffect::RangedAttack(_, BoltKind::AirBullet)));
    let hatch = m.get("Hatch");
    assert_eq!(Some(400), hatch.cooldown);
    assert!(hatch.start_cooldown_spent);
    let eggs = m.get("Throw Eggs");
    assert_eq!(Some(AmmoInfo { kind: AmmoKind::Eggs, usage: 1 }), eggs.ammo_info);
    assert_eq!(Some(500), eggs.cooldown);
    assert!(m.contains("Take Off"));
    assert!(m.contains("Explosive Eggs"));
    assert!(m.contains("Feather Orb"));
    assert!(m.contains("Tailwind"));
    assert!(!m.contains("Pummel"));
}
