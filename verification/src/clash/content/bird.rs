use vstd::prelude::*;

use crate::clash::combat::{BoltKind, FieldEffect, FieldKind, OrbKind, SpawnKind};
use crate::clash::damage::{spec_damage, Damage, DamageElement, DamageOptions};
use crate::clash::skill_resources::{with_skills, SkillsResource};
use crate::clash::skills::{AmmoKind, SkillEffect, SkillInfo, TargetType};
use crate::clash::status::StatusKind;

verus! {

/// The giant bird's skills, in the order they are added.
pub open spec fn bird_skill_list() -> Seq<SkillInfo> {
    seq![
        SkillInfo::spec_init_with_distance("Wing Blast", None, TargetType::Player, SkillEffect::RangedAttack(spec_damage(1, DamageElement::PHYSICAL, 0), BoltKind::AirBullet), Some(2u32), true),
        SkillInfo::spec_init_with_distance("Feather Orb", None, TargetType::Player, SkillEffect::Orb(spec_damage(3, DamageElement::PHYSICAL, 0), OrbKind::Feather, 2, 12), Some(12u32), true).spec_with_ammo(AmmoKind::Feathers, 1),
        SkillInfo::spec_init_with_distance("Tailwind", None, TargetType::Player, SkillEffect::Sequence(Box::new(SkillEffect::RangedAttack(spec_damage(0, DamageElement::PHYSICAL, DamageOptions::KNOCKBACK), BoltKind::AirBullet)), Box::new(SkillEffect::ReloadSomeRandom(AmmoKind::Feathers, 3))), Some(6u32), true).spec_with_cooldown(400),
        SkillInfo::spec_init("Explosive Eggs", None, TargetType::Tile, SkillEffect::Field(FieldEffect::Damage(spec_damage(3, DamageElement::PHYSICAL, 0), 1), FieldKind::Fire)),
        SkillInfo::spec_init("Take Off", None, TargetType::NoTarget, SkillEffect::Buff(StatusKind::Flying, 600)).spec_with_cooldown(1000),
        SkillInfo::spec_init("Hatch", None, TargetType::NoTarget, SkillEffect::SpawnReplace(SpawnKind::BirdSpawn)).spec_with_cooldown(400).spec_with_cooldown_spent(),
        SkillInfo::spec_init("Throw Eggs", None, TargetType::Tile, SkillEffect::Spawn(SpawnKind::Egg)).spec_with_ammo(AmmoKind::Eggs, 1).spec_with_cooldown(500),
    ]
}

/// Adds the giant bird's skills to `m`.
pub fn bird_skills(m: &mut SkillsResource)
    requires
        old(m).wf(),
    ensures
        final(m).wf(),
        final(m)@ == with_skills(old(m)@, bird_skill_list()),
{
    assert(0u32 | DamageOptions::KNOCKBACK == DamageOptions::KNOCKBACK) by (bit_vector);
    let skills = vec![
        SkillInfo::init_with_distance("Wing Blast", None, TargetType::Player, SkillEffect::RangedAttack(Damage::init(1, DamageElement::PHYSICAL), BoltKind::AirBullet), Some(2u32), true),
        SkillInfo::init_with_distance("Feather Orb", None, TargetType::Player, SkillEffect::Orb(Damage::init(3, DamageElement::PHYSICAL), OrbKind::Feather, 2, 12), Some(12u32), true).with_ammo(AmmoKind::Feathers, 1),
        SkillInfo::init_with_distance("Tailwind", None, TargetType::Player, SkillEffect::Sequence(Box::new(SkillEffect::RangedAttack(Damage::init(0, DamageElement::PHYSICAL).with_option(DamageOptions::KNOCKBACK), BoltKind::AirBullet)), Box::new(SkillEffect::ReloadSomeRandom(AmmoKind::Feathers, 3))), Some(6u32), true).with_cooldown(400),
        SkillInfo::init("Explosive Eggs", None, TargetType::Tile, SkillEffect::Field(FieldEffect::Damage(Damage::init(3, DamageElement::PHYSICAL), 1), FieldKind::Fire)),
        SkillInfo::init("Take Off", None, TargetType::NoTarget, SkillEffect::Buff(StatusKind::Flying, 600)).with_cooldown(1000),
        SkillInfo::init("Hatch", None, TargetType::NoTarget, SkillEffect::SpawnReplace(SpawnKind::BirdSpawn)).with_cooldown(400).with_cooldown_spent(),
        SkillInfo::init("Throw Eggs", None, TargetType::Tile, SkillEffect::Spawn(SpawnKind::Egg)).with_ammo(AmmoKind::Eggs, 1).with_cooldown(500),
    ];
    assert(skills@ =~= bird_skill_list());
    m.add_all(&skills);
}

} // verus!
