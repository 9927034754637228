use rand::rngs::StdRng;
use vstd::prelude::*;

use crate::clash::combat::{BoltKind, ConeKind, FieldEffect, FieldKind, SpawnKind, WeaponKind};
use crate::clash::damage::{spec_damage, Damage, DamageElement, DamageOptions};
use crate::clash::skill_resources::{with_skills, SkillsResource};
use crate::clash::skills::{AmmoKind, SkillEffect, SkillInfo, TargetType};
use crate::clash::status::StatusKind;
use crate::clash::strength::shuffle;

verus! {

/// The elementals an elementalist summons.
#[derive(Clone, Copy, Debug, PartialEq, Eq, Structural)]
pub enum ElementalKind {
    Water,
    Fire,
    Wind,
    Earth,
}

/// How many elementals an elementalist keeps summoned at most.
pub const MAX_ELEMENTS_SUMMONED: u32 = 4;

/// Every kind of elemental, in the order an elementalist considers them.
pub open spec fn all_elements() -> Seq<ElementalKind> {
    seq![ElementalKind::Water, ElementalKind::Fire, ElementalKind::Wind, ElementalKind::Earth]
}

/// The first index of `x` in `s`.
pub open spec fn first_index_of(s: Seq<ElementalKind>, x: ElementalKind) -> int {
    choose|i: int| 0 <= i < s.len() && s[i] == x && forall|j: int| 0 <= j < i ==> #[trigger] s[j] != x
}

/// `s` with its element at `i` replaced by its last element, which is then
/// dropped.
pub open spec fn swap_removed(s: Seq<ElementalKind>, i: int) -> Seq<ElementalKind> {
    s.update(i, s.last()).drop_last()
}

/// The kinds left to summon once the elementals of `present` are out, each
/// taken out of the list by swapping the last kind into its place.
pub open spec fn spec_remaining(present: Seq<ElementalKind>) -> Seq<ElementalKind>
    decreases present.len(),
{
    if present.len() == 0 {
        all_elements()
    } else {
        let s = spec_remaining(present.drop_last());
        swap_removed(s, first_index_of(s, present.last()))
    }
}

/// The kinds that are left once the summoned elementals `present` (each kind
/// at most once) are taken out of the list of all kinds.
pub fn remaining_elements(present: &Vec<ElementalKind>) -> (r: Vec<ElementalKind>)
    requires
        present@.no_duplicates(),
    ensures
        r@ == spec_remaining(present@),
        r@.no_duplicates(),
        r@.len() == 4 - present@.len(),
        forall|x: ElementalKind| r@.contains(x) <==> !present@.contains(x),
{
    let mut elements = vec![ElementalKind::Water, ElementalKind::Fire, ElementalKind::Wind, ElementalKind::Earth];
    assert(elements@ == all_elements());
    proof {
        assert forall|x: ElementalKind| #[trigger] elements@.contains(x) by {
            match x {
                ElementalKind::Water => assert(elements@[0] == x),
                ElementalKind::Fire => assert(elements@[1] == x),
                ElementalKind::Wind => assert(elements@[2] == x),
                ElementalKind::Earth => assert(elements@[3] == x),
            }
        }
    }
    let mut k: usize = 0;
    while k < present.len()
        invariant
            present@.no_duplicates(),
            k <= present@.len(),
            elements@ == spec_remaining(present@.take(k as int)),
            elements@.no_duplicates(),
            elements@.len() == 4 - k,
            forall|x: ElementalKind| elements@.contains(x) <==> !present@.take(k as int).contains(x),
        decreases present@.len() - k,
    {
        let kind = present[k];
        assert(present@.take(k + 1).drop_last() =~= present@.take(k as int));
        assert(!present@.take(k as int).contains(kind)) by {
            let pk = present@.take(k as int);
            if pk.contains(kind) {
                let j = choose|j: int| 0 <= j < pk.len() && #[trigger] pk[j] == kind;
                assert(present@[j] == present@[k as int]);
            }
        }
        let mut i: usize = 0;
        while i < elements.len() && elements[i] != kind
            invariant
                i <= elements@.len(),
                forall|j: int| 0 <= j < i ==> #[trigger] elements@[j] != kind,
            decreases elements@.len() - i,
        {
            i = i + 1;
        }
        let ghost before = elements@;
        proof {
            assert(before.contains(kind));
            if i == before.len() {
                let j = choose|j: int| 0 <= j < before.len() && before[j] == kind;
                assert(false);
            }
        }
        assert(first_index_of(before, kind) == i) by {
            let f = first_index_of(before, kind);
            assert(0 <= i < before.len() && before[i as int] == kind && forall|j: int| 0 <= j < i ==> #[trigger] before[j] != kind);
            if f < i {
                assert(before[f] != kind);
            } else if f > i {
                assert(before[i as int] != kind);
            }
        }
        elements.swap_remove(i);
        proof {
            let now = elements@;
            assert(now == swap_removed(before, i as int));
            assert forall|a: int, b: int| 0 <= a < now.len() && 0 <= b < now.len() && a != b implies now[a] != now[b] by {
                let ia = if a == i { before.len() - 1 } else { a };
                let ib = if b == i { before.len() - 1 } else { b };
                assert(now[a] == before[ia]);
                assert(now[b] == before[ib]);
            }
            assert forall|x: ElementalKind| now.contains(x) <==> !present@.take(k + 1).contains(x) by {
                if x == kind {
                    if now.contains(x) {
                        let a = choose|a: int| 0 <= a < now.len() && now[a] == x;
                        let ia = if a == i { before.len() - 1 } else { a };
                        assert(before[ia] == x);
                        assert(before[i as int] == x);
                    }
                    assert(present@.take(k + 1)[k as int] == kind);
                } else {
                    if before.contains(x) {
                        let a = choose|a: int| 0 <= a < before.len() && before[a] == x;
                        if a == before.len() - 1 {
                            if i == before.len() - 1 {
                                assert(before[a] == kind);
                            } else {
                                assert(now[i as int] == x);
                            }
                        } else {
                            assert(a != i);
                            assert(now[a] == x);
                        }
                    }
                    if now.contains(x) {
                        let a = choose|a: int| 0 <= a < now.len() && now[a] == x;
                        let ia = if a == i { before.len() - 1 } else { a };
                        assert(before[ia] == x);
                    }
                    let pk1 = present@.take(k + 1);
                    let pk = present@.take(k as int);
                    if pk1.contains(x) {
                        let j = choose|j: int| 0 <= j < pk1.len() && #[trigger] pk1[j] == x;
                        assert(pk[j] == x);
                    }
                    if pk.contains(x) {
                        let j = choose|j: int| 0 <= j < pk.len() && #[trigger] pk[j] == x;
                        assert(pk1[j] == x);
                    }
                }
            }
        }
        k = k + 1;
    }
    assert(present@.take(k as int) =~= present@);
    elements
}

/// The skill that summons an elemental of `kind`.
pub open spec fn spec_summon_skill(kind: ElementalKind) -> Seq<char> {
    match kind {
        ElementalKind::Water => "Summon Elemental (Water)"@,
        ElementalKind::Fire => "Summon Elemental (Fire)"@,
        ElementalKind::Wind => "Summon Elemental (Wind)"@,
        ElementalKind::Earth => "Summon Elemental (Earth)"@,
    }
}

/// The skill that summons an elemental of `kind`.
pub fn summon_skill(kind: ElementalKind) -> (r: &'static str)
    ensures
        r@ == spec_summon_skill(kind),
{
    match kind {
        ElementalKind::Water => "Summon Elemental (Water)",
        ElementalKind::Fire => "Summon Elemental (Fire)",
        ElementalKind::Wind => "Summon Elemental (Wind)",
        ElementalKind::Earth => "Summon Elemental (Earth)",
    }
}

/// The summon an elementalist uses next, given the kinds of the elementals
/// already out (each at most once, not all four): a kind not out yet, picked
/// at random.
pub fn get_elemental_summon_to_use(present: &Vec<ElementalKind>, rng: &mut StdRng) -> (r: &'static str)
    requires
        present@.no_duplicates(),
        present@.len() < 4,
    ensures
        exists|kind: ElementalKind| !present@.contains(kind) && r@ == spec_summon_skill(kind),
{
    let mut elements = remaining_elements(present);
    let ghost before = elements@;
    shuffle(&mut elements, rng);
    proof {
        if elements@.len() == 0 {
            before.to_multiset_ensures();
            elements@.to_multiset_ensures();
            assert(before.to_multiset().count(before[0]) > 0);
        }
        elements@.to_multiset_ensures();
        before.to_multiset_ensures();
    }
    let kind = elements[0];
    proof {
        assert(elements@.to_multiset().count(kind) > 0);
        assert(before.contains(kind));
    }
    summon_skill(kind)
}

/// The width of the tidal surge's cone.
pub const TIDAL_SURGE_SIZE: u32 = 2;

/// How far the healing mist reaches.
pub const HEALING_MIST_RANGE: u32 = 5;

/// How far the magma eruption reaches.
pub const MAGMA_ERUPTION_RANGE: u32 = 7;

/// The elementalist's skills and those of its elementals, in the order they are added.
pub open spec fn elementalist_skill_list() -> Seq<SkillInfo> {
    seq![
        SkillInfo::spec_init_with_distance("Tidal Surge", None, TargetType::AnyoneButSelf, SkillEffect::ConeAttack(spec_damage(3, DamageElement::PHYSICAL, DamageOptions::KNOCKBACK), ConeKind::Water, TIDAL_SURGE_SIZE), Some(1u32), false).spec_with_cooldown(200),
        SkillInfo::spec_init_with_distance("Ice Shard", None, TargetType::Player, SkillEffect::RangedAttack(spec_damage(2, DamageElement::PHYSICAL, 0), BoltKind::Water), Some(2u32), false),
        SkillInfo::spec_init_with_distance("Healing Mist", None, TargetType::Any, SkillEffect::Buff(StatusKind::Regen, 400), Some(HEALING_MIST_RANGE), false),
        SkillInfo::spec_init_with_distance("Magma Eruption", None, TargetType::Any, SkillEffect::Field(FieldEffect::SustainedDamage(spec_damage(1, DamageElement::PHYSICAL, DamageOptions::PIERCE_DEFENSES), 6), FieldKind::Fire), Some(MAGMA_ERUPTION_RANGE), false).spec_with_cooldown(200),
        SkillInfo::spec_init_with_distance("Lava Bolt", None, TargetType::Player, SkillEffect::RangedAttack(spec_damage(2, DamageElement::PHYSICAL, 0), BoltKind::Fire), Some(4u32), false),
        SkillInfo::spec_init_with_distance("Lightning Surge", None, TargetType::Player, SkillEffect::RangedAttack(spec_damage(3, DamageElement::PHYSICAL, 0), BoltKind::Lightning), Some(4u32), false),
        SkillInfo::spec_init_with_distance("Hailstone", None, TargetType::Player, SkillEffect::Field(FieldEffect::Damage(spec_damage(4, DamageElement::PHYSICAL, 0), 1), FieldKind::Hail), Some(8u32), false).spec_with_cooldown(200),
        SkillInfo::spec_init_with_distance("Earthen Rage", None, TargetType::Player, SkillEffect::ChargeAttack(spec_damage(2, DamageElement::PHYSICAL, DamageOptions::KNOCKBACK), WeaponKind::Sword), Some(5u32), false).spec_with_cooldown(400),
        SkillInfo::spec_init_with_distance("Rock Slide", None, TargetType::Player, SkillEffect::ChargeAttack(spec_damage(2, DamageElement::PHYSICAL, 0), WeaponKind::Sword), Some(3u32), false).spec_with_cooldown(300),
        SkillInfo::spec_init_with_distance("Pummel", None, TargetType::Player, SkillEffect::MeleeAttack(spec_damage(3, DamageElement::PHYSICAL, 0), WeaponKind::Sword), Some(1u32), false),
        SkillInfo::spec_init("Summon Elemental (Water)", None, TargetType::Tile, SkillEffect::Spawn(SpawnKind::WaterElemental)).spec_with_ammo(AmmoKind::Charge, 60),
        SkillInfo::spec_init("Summon Elemental (Fire)", None, TargetType::Tile, SkillEffect::Spawn(SpawnKind::FireElemental)).spec_with_ammo(AmmoKind::Charge, 60),
        SkillInfo::spec_init("Summon Elemental (Wind)", None, TargetType::Tile, SkillEffect::Spawn(SpawnKind::WindElemental)).spec_with_ammo(AmmoKind::Charge, 60),
        SkillInfo::spec_init("Summon Elemental (Earth)", None, TargetType::Tile, SkillEffect::Spawn(SpawnKind::EarthElemental)).spec_with_ammo(AmmoKind::Charge, 60),
        SkillInfo::spec_init("Frost Armor", None, TargetType::NoTarget, SkillEffect::Sequence(Box::new(SkillEffect::Buff(StatusKind::Armored, 2000)), Box::new(SkillEffect::ReloadSome(AmmoKind::Charge, 5)))),
        SkillInfo::spec_init("Invoke the Elements", None, TargetType::NoTarget, SkillEffect::ReloadSome(AmmoKind::Charge, 10)),
        SkillInfo::spec_init_with_distance("Call Lightning", None, TargetType::Player, SkillEffect::Sequence(Box::new(SkillEffect::Field(FieldEffect::Damage(spec_damage(3, DamageElement::PHYSICAL, 0), 0), FieldKind::Lightning)), Box::new(SkillEffect::ReloadSome(AmmoKind::Charge, 5))), Some(6u32), false).spec_with_cooldown(200),
    ]
}

/// Adds the elementalist's skills and those of its elementals to `m`.
pub fn elementalist_skills(m: &mut SkillsResource)
    requires
        old(m).wf(),
    ensures
        final(m).wf(),
        final(m)@ == with_skills(old(m)@, elementalist_skill_list()),
{
    assert(0u32 | DamageOptions::KNOCKBACK == DamageOptions::KNOCKBACK) by (bit_vector);
    assert(0u32 | DamageOptions::PIERCE_DEFENSES == DamageOptions::PIERCE_DEFENSES) by (bit_vector);
    let skills = vec![
        SkillInfo::init_with_distance("Tidal Surge", None, TargetType::AnyoneButSelf, SkillEffect::ConeAttack(Damage::init(3, DamageElement::PHYSICAL).with_option(DamageOptions::KNOCKBACK), ConeKind::Water, TIDAL_SURGE_SIZE), Some(1u32), false).with_cooldown(200),
        SkillInfo::init_with_distance("Ice Shard", None, TargetType::Player, SkillEffect::RangedAttack(Damage::init(2, DamageElement::PHYSICAL), BoltKind::Water), Some(2u32), false),
        SkillInfo::init_with_distance("Healing Mist", None, TargetType::Any, SkillEffect::Buff(StatusKind::Regen, 400), Some(HEALING_MIST_RANGE), false),
        SkillInfo::init_with_distance("Magma Eruption", None, TargetType::Any, SkillEffect::Field(FieldEffect::SustainedDamage(Damage::init(1, DamageElement::PHYSICAL).with_option(DamageOptions::PIERCE_DEFENSES), 6), FieldKind::Fire), Some(MAGMA_ERUPTION_RANGE), false).with_cooldown(200),
        SkillInfo::init_with_distance("Lava Bolt", None, TargetType::Player, SkillEffect::RangedAttack(Damage::init(2, DamageElement::PHYSICAL), BoltKind::Fire), Some(4u32), false),
        SkillInfo::init_with_distance("Lightning Surge", None, TargetType::Player, SkillEffect::RangedAttack(Damage::init(3, DamageElement::PHYSICAL), BoltKind::Lightning), Some(4u32), false),
        SkillInfo::init_with_distance("Hailstone", None, TargetType::Player, SkillEffect::Field(FieldEffect::Damage(Damage::init(4, DamageElement::PHYSICAL), 1), FieldKind::Hail), Some(8u32), false).with_cooldown(200),
        SkillInfo::init_with_distance("Earthen Rage", None, TargetType::Player, SkillEffect::ChargeAttack(Damage::init(2, DamageElement::PHYSICAL).with_option(DamageOptions::KNOCKBACK), WeaponKind::Sword), Some(5u32), false).with_cooldown(400),
        SkillInfo::init_with_distance("Rock Slide", None, TargetType::Player, SkillEffect::ChargeAttack(Damage::init(2, DamageElement::PHYSICAL), WeaponKind::Sword), Some(3u32), false).with_cooldown(300),
        SkillInfo::init_with_distance("Pummel", None, TargetType::Player, SkillEffect::MeleeAttack(Damage::init(3, DamageElement::PHYSICAL), WeaponKind::Sword), Some(1u32), false),
        SkillInfo::init("Summon Elemental (Water)", None, TargetType::Tile, SkillEffect::Spawn(SpawnKind::WaterElemental)).with_ammo(AmmoKind::Charge, 60),
        SkillInfo::init("Summon Elemental (Fire)", None, TargetType::Tile, SkillEffect::Spawn(SpawnKind::FireElemental)).with_ammo(AmmoKind::Charge, 60),
        SkillInfo::init("Summon Elemental (Wind)", None, TargetType::Tile, SkillEffect::Spawn(SpawnKind::WindElemental)).with_ammo(AmmoKind::Charge, 60),
        SkillInfo::init("Summon Elemental (Earth)", None, TargetType::Tile, SkillEffect::Spawn(SpawnKind::EarthElemental)).with_ammo(AmmoKind::Charge, 60),
        SkillInfo::init("Frost Armor", None, TargetType::NoTarget, SkillEffect::Sequence(Box::new(SkillEffect::Buff(StatusKind::Armored, 2000)), Box::new(SkillEffect::ReloadSome(AmmoKind::Charge, 5)))),
        SkillInfo::init("Invoke the Elements", None, TargetType::NoTarget, SkillEffect::ReloadSome(AmmoKind::Charge, 10)),
        SkillInfo::init_with_distance("Call Lightning", None, TargetType::Player, SkillEffect::Sequence(Box::new(SkillEffect::Field(FieldEffect::Damage(Damage::init(3, DamageElement::PHYSICAL), 0), FieldKind::Lightning)), Box::new(SkillEffect::ReloadSome(AmmoKind::Charge, 5))), Some(6u32), false).with_cooldown(200),
    ];
    assert(skills@ =~= elementalist_skill_list());
    m.add_all(&skills);
}

} // verus!
