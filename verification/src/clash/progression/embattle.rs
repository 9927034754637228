use vstd::prelude::*;

use super::equipment::{same_slot, same_slots, Equipment, EquipmentEffect, EquipmentItem, EquipmentKinds};
use crate::clash::content::gunslinger::base_resources;
use crate::clash::content::gunslinger::default_attack_replacement;
use crate::clash::damage::{spec_damage, Damage};
use crate::clash::skills::{AmmoKind, SkillEffect, SkillInfo};
use crate::text::str_equal;

verus! {

/// The effects of an equipped slot: its item's effects, none when empty.
pub open spec fn slot_effects(slot: Option<EquipmentItem>) -> Seq<EquipmentEffect> {
    match slot {
        Some(item) => item.effect@,
        None => Seq::empty(),
    }
}

/// The effects of a list of slots, slot by slot, in order.
pub open spec fn effects_of(slots: Seq<Option<EquipmentItem>>) -> Seq<EquipmentEffect>
    decreases slots.len(),
{
    if slots.len() == 0 {
        Seq::empty()
    } else {
        effects_of(slots.drop_last()) + slot_effects(slots.last())
    }
}

/// Every slot of `e`: weapons, armor, accessories, masteries.
pub open spec fn equipped_slots(e: Equipment) -> Seq<Option<EquipmentItem>> {
    e.slots(EquipmentKinds::Weapon) + e.slots(EquipmentKinds::Armor) + e.slots(EquipmentKinds::Accessory) + e.slots(
        EquipmentKinds::Mastery,
    )
}

/// Every effect of the equipment worn, slot by slot.
pub open spec fn equipped_effects(e: Equipment) -> Seq<EquipmentEffect> {
    effects_of(equipped_slots(e))
}

/// Slots that match one by one have the same effects.
proof fn lemma_same_slots_effects(a: Seq<Option<EquipmentItem>>, b: Seq<Option<EquipmentItem>>)
    requires
        same_slots(a, b),
    ensures
        effects_of(a) == effects_of(b),
    decreases a.len(),
{
    if a.len() > 0 {
        assert(same_slots(a.drop_last(), b.drop_last())) by {
            assert forall|k: int| 0 <= k < a.drop_last().len() implies same_slot(#[trigger] a.drop_last()[k], b.drop_last()[k]) by {
                assert(same_slot(a[k], b[k]));
            }
        }
        lemma_same_slots_effects(a.drop_last(), b.drop_last());
        assert(same_slot(a[a.len() - 1], b[b.len() - 1]));
    }
}

/// The effects of every equipped item, item by item in slot order (weapons,
/// armor, accessories, masteries).
pub fn collect_effects(equipment: &Equipment) -> (r: Vec<EquipmentEffect>)
    ensures
        r@ == equipped_effects(*equipment),
{
    let all = equipment.all();
    let mut out: Vec<EquipmentEffect> = Vec::new();
    let mut k: usize = 0;
    while k < all.len()
        invariant
            k <= all@.len(),
            out@ == effects_of(all@.take(k as int)),
        decreases all@.len() - k,
    {
        assert(all@.take(k + 1).drop_last() =~= all@.take(k as int));
        if let Some(item) = &all[k] {
            let mut j: usize = 0;
            let ghost start = out@;
            while j < item.effect.len()
                invariant
                    j <= item.effect@.len(),
                    out@ == start + item.effect@.take(j as int),
                decreases item.effect@.len() - j,
            {
                out.push(item.effect[j].duplicate());
                j = j + 1;
                assert(out@ =~= start + item.effect@.take(j as int));
            }
            assert(item.effect@.take(j as int) =~= item.effect@);
        } else {
            assert(out@ =~= effects_of(all@.take(k as int)) + slot_effects(all@[k as int]));
        }
        k = k + 1;
    }
    assert(all@.take(k as int) =~= all@);
    proof {
        lemma_same_slots_effects(all@, equipped_slots(*equipment));
    }
    out
}

/// Dodge, armor, absorb and health bonuses summed over `effects`.
pub open spec fn defense_totals(effects: Seq<EquipmentEffect>) -> (int, int, int, int)
    decreases effects.len(),
{
    if effects.len() == 0 {
        (0, 0, 0, 0)
    } else {
        let t = defense_totals(effects.drop_last());
        match effects.last() {
            EquipmentEffect::ModifiesDodge(d) => (t.0 + d, t.1, t.2, t.3),
            EquipmentEffect::ModifiesArmor(d) => (t.0, t.1 + d, t.2, t.3),
            EquipmentEffect::ModifiesAbsorb(d) => (t.0, t.1, t.2 + d, t.3),
            EquipmentEffect::ModifiesMaxHealth(d) => (t.0, t.1, t.2, t.3 + d),
            _ => t,
        }
    }
}

/// Whether a number fits in `i32`.
pub open spec fn fits_i32(v: int) -> bool {
    i32::MIN <= v <= i32::MAX
}

/// Whether every running total of the defense bonuses fits in `i32`.
pub open spec fn defense_totals_fit(effects: Seq<EquipmentEffect>) -> bool {
    forall|n: int|
        0 <= n <= effects.len() ==> {
            let t = #[trigger] defense_totals(effects.take(n));
            fits_i32(t.0) && fits_i32(t.1) && fits_i32(t.2) && fits_i32(t.3)
        }
}

/// The dodge, armor, absorb and health bonuses of the equipment worn.
pub fn collect_defense_modifier(equipment: &Equipment) -> (r: (i32, i32, i32, i32))
    requires
        defense_totals_fit(equipped_effects(*equipment)),
    ensures
        (r.0 as int, r.1 as int, r.2 as int, r.3 as int) == defense_totals(equipped_effects(*equipment)),
{
    let effects = collect_effects(equipment);
    let mut dodge: i32 = 0;
    let mut armor: i32 = 0;
    let mut absorb: i32 = 0;
    let mut health: i32 = 0;
    let mut k: usize = 0;
    assert(effects@.take(0) =~= Seq::<EquipmentEffect>::empty());
    while k < effects.len()
        invariant
            k <= effects@.len(),
            defense_totals_fit(effects@),
            (dodge as int, armor as int, absorb as int, health as int) == defense_totals(effects@.take(k as int)),
        decreases effects@.len() - k,
    {
        assert(effects@.take(k + 1).drop_last() =~= effects@.take(k as int));
        let ghost next = defense_totals(effects@.take(k + 1));
        assert(fits_i32(next.0) && fits_i32(next.1) && fits_i32(next.2) && fits_i32(next.3));
        match &effects[k] {
            EquipmentEffect::ModifiesDodge(d) => dodge = dodge + *d,
            EquipmentEffect::ModifiesArmor(d) => armor = armor + *d,
            EquipmentEffect::ModifiesAbsorb(d) => absorb = absorb + *d,
            EquipmentEffect::ModifiesMaxHealth(d) => health = health + *d,
            _ => {},
        }
        k = k + 1;
    }
    assert(effects@.take(k as int) =~= effects@);
    (dodge, armor, absorb, health)
}

/// The resource bonus summed over `effects`, and whether any effect gives one.
pub open spec fn resource_total(effects: Seq<EquipmentEffect>) -> (bool, int)
    decreases effects.len(),
{
    if effects.len() == 0 {
        (false, 0)
    } else {
        let t = resource_total(effects.drop_last());
        match effects.last() {
            EquipmentEffect::ModifiesResourceTotal(d, _) => (true, t.1 + d),
            _ => t,
        }
    }
}

/// Whether every resource bonus in `effects` is for bullets, the one
/// resource that equipment can change.
pub open spec fn resources_known(effects: Seq<EquipmentEffect>) -> bool {
    forall|k: int| 0 <= k < effects.len() ==> (#[trigger] effects[k] matches EquipmentEffect::ModifiesResourceTotal(_, kind) ==> kind@ == "Bullets"@)
}

/// Whether every running total of the resource bonus fits in `i32`.
pub open spec fn resource_total_fits(effects: Seq<EquipmentEffect>) -> bool {
    forall|n: int| 0 <= n <= effects.len() ==> fits_i32(#[trigger] resource_total(effects.take(n)).1)
}

/// The resource bonuses of the equipment worn: the bullet total when some
/// item changes it, nothing otherwise.
pub fn collect_resource_modifier(equipment: &Equipment) -> (r: Vec<(AmmoKind, i32)>)
    requires
        resources_known(equipped_effects(*equipment)),
        resource_total_fits(equipped_effects(*equipment)),
    ensures
        resource_total(equipped_effects(*equipment)).0 ==> r@ == seq![
            (AmmoKind::Bullets, resource_total(equipped_effects(*equipment)).1 as i32),
        ],
        !resource_total(equipped_effects(*equipment)).0 ==> r@.len() == 0,
{
    let effects = collect_effects(equipment);
    let mut found = false;
    let mut bullets: i32 = 0;
    let mut k: usize = 0;
    assert(effects@.take(0) =~= Seq::<EquipmentEffect>::empty());
    while k < effects.len()
        invariant
            k <= effects@.len(),
            resources_known(effects@),
            resource_total_fits(effects@),
            (found, bullets as int) == resource_total(effects@.take(k as int)),
        decreases effects@.len() - k,
    {
        assert(effects@.take(k + 1).drop_last() =~= effects@.take(k as int));
        assert(fits_i32(resource_total(effects@.take(k + 1)).1));
        match &effects[k] {
            EquipmentEffect::ModifiesResourceTotal(delta, kind) => {
                assert(kind@ == "Bullets"@);
                found = true;
                bullets = bullets + *delta;
            },
            _ => {},
        }
        k = k + 1;
    }
    assert(effects@.take(k as int) =~= effects@);
    let mut out: Vec<(AmmoKind, i32)> = Vec::new();
    if found {
        out.push((AmmoKind::Bullets, bullets));
    }
    out
}

/// The ability modes unlocked by `effects`, in order.
pub open spec fn attack_modes(effects: Seq<EquipmentEffect>) -> Seq<Seq<char>>
    decreases effects.len(),
{
    if effects.len() == 0 {
        Seq::empty()
    } else {
        let rest = attack_modes(effects.drop_last());
        match effects.last() {
            EquipmentEffect::UnlocksAbilityMode(kind) => rest.push(kind@),
            _ => rest,
        }
    }
}

/// The ability modes the equipment worn unlocks, in slot order.
pub fn collect_attack_modes(equipment: &Equipment) -> (r: Vec<String>)
    ensures
        r@.map_values(|s: String| s@) == attack_modes(equipped_effects(*equipment)),
{
    let effects = collect_effects(equipment);
    let mut modes: Vec<String> = Vec::new();
    let mut k: usize = 0;
    while k < effects.len()
        invariant
            k <= effects@.len(),
            modes@.map_values(|s: String| s@) == attack_modes(effects@.take(k as int)),
        decreases effects@.len() - k,
    {
        assert(effects@.take(k + 1).drop_last() =~= effects@.take(k as int));
        let ghost before = modes@;
        match &effects[k] {
            EquipmentEffect::UnlocksAbilityMode(kind) => {
                let m = kind.clone();
                modes.push(m);
                assert(modes@.map_values(|s: String| s@) =~= before.map_values(|s: String| s@).push(m@));
            },
            _ => {},
        }
        k = k + 1;
    }
    assert(effects@.take(k as int) =~= effects@);
    modes
}

/// The player's resources once the equipment worn changes them: the bullet
/// bonus moves both the starting amount and the maximum of bullets (as `u32`
/// values that wrap below zero).
pub fn get_player_resources(equipment: &Equipment) -> (r: Vec<(AmmoKind, u32, u32)>)
    requires
        resources_known(equipped_effects(*equipment)),
        resource_total_fits(equipped_effects(*equipment)),
        resource_total(equipped_effects(*equipment)).1 <= i32::MAX - 6,
    ensures
        ({
            let t = resource_total(equipped_effects(*equipment));
            if t.0 {
                r@ == seq![(AmmoKind::Bullets, (6 + t.1) as u32, (6 + t.1) as u32), (AmmoKind::Adrenaline, 0u32, 100u32)]
            } else {
                r@ == seq![(AmmoKind::Bullets, 6u32, 6u32), (AmmoKind::Adrenaline, 0u32, 100u32)]
            }
        }),
{
    let mut resources = base_resources();
    let deltas = collect_resource_modifier(equipment);
    let ghost t = resource_total(equipped_effects(*equipment));
    proof {
        let effects = equipped_effects(*equipment);
        assert(effects.take(effects.len() as int) =~= effects);
        assert(fits_i32(resource_total(effects.take(effects.len() as int)).1));
    }
    let mut k: usize = 0;
    while k < deltas.len()
        invariant
            fits_i32(t.1),
            t.1 <= i32::MAX - 6,
            t.0 ==> deltas@ == seq![(AmmoKind::Bullets, t.1 as i32)],
            !t.0 ==> deltas@.len() == 0,
            k <= deltas@.len(),
            k == 0 ==> resources@ == seq![(AmmoKind::Bullets, 6u32, 6u32), (AmmoKind::Adrenaline, 0u32, 100u32)],
            k == 1 ==> resources@ == seq![
                (AmmoKind::Bullets, (6 + t.1) as u32, (6 + t.1) as u32),
                (AmmoKind::Adrenaline, 0u32, 100u32),
            ],
        decreases deltas@.len() - k,
    {
        let (kind, delta) = deltas[k];
        let mut i: usize = 0;
        while i < resources.len() && resources[i].0 != kind
            invariant
                resources@.len() == 2,
                i <= resources@.len(),
                forall|j: int| 0 <= j < i ==> (#[trigger] resources@[j]).0 != kind,
            decreases resources@.len() - i,
        {
            i = i + 1;
        }
        assert(resources@[0].0 == kind);
        let (_, amount, max) = resources[i];
        let new_amount = #[verifier::truncate] ((amount as i32 + delta) as u32);
        let new_max = if max > 0 {
            #[verifier::truncate] ((max as i32 + delta) as u32)
        } else {
            max
        };
        resources.set(i, (kind, new_amount, new_max));
        k = k + 1;
    }
    resources
}

/// The attack classes `effects` unlock, in order.
pub open spec fn unlocked_classes(effects: Seq<EquipmentEffect>) -> Seq<Seq<char>>
    decreases effects.len(),
{
    if effects.len() == 0 {
        Seq::empty()
    } else {
        let rest = unlocked_classes(effects.drop_last());
        match effects.last() {
            EquipmentEffect::UnlocksAbilityClass(kind) => rest.push(kind@),
            _ => rest,
        }
    }
}

/// The range and strength bonuses `effects` give every weapon skill.
pub open spec fn weapon_bonuses(effects: Seq<EquipmentEffect>) -> (int, int)
    decreases effects.len(),
{
    if effects.len() == 0 {
        (0, 0)
    } else {
        let t = weapon_bonuses(effects.drop_last());
        match effects.last() {
            EquipmentEffect::ModifiesWeaponRange(d) => (t.0 + d, t.1),
            EquipmentEffect::ModifiesWeaponStrength(d) => (t.0, t.1 + d),
            _ => t,
        }
    }
}

/// The range and strength bonuses `effects` give the skill `name`.
pub open spec fn skill_bonuses(effects: Seq<EquipmentEffect>, name: Seq<char>) -> (int, int)
    decreases effects.len(),
{
    if effects.len() == 0 {
        (0, 0)
    } else {
        let t = skill_bonuses(effects.drop_last(), name);
        match effects.last() {
            EquipmentEffect::ModifiesSkillRange(d, skill) => if skill@ == name {
                (t.0 + d, t.1)
            } else {
                t
            },
            EquipmentEffect::ModifiesSkillStrength(d, skill) => if skill@ == name {
                (t.0, t.1 + d)
            } else {
                t
            },
            _ => t,
        }
    }
}

/// Whether every running total of the weapon and skill bonuses fits in
/// `i32`.
pub open spec fn attack_bonuses_fit(effects: Seq<EquipmentEffect>) -> bool {
    &&& forall|n: int|
        0 <= n <= effects.len() ==> {
            let t = #[trigger] weapon_bonuses(effects.take(n));
            fits_i32(t.0) && fits_i32(t.1)
        }
    &&& forall|n: int, name: Seq<char>|
        0 <= n <= effects.len() ==> {
            let t = #[trigger] skill_bonuses(effects.take(n), name);
            fits_i32(t.0) && fits_i32(t.1)
        }
}

/// Whether some entry of `lookup` is keyed `name`.
pub open spec fn has_entry(lookup: Seq<(String, SkillInfo)>, name: Seq<char>) -> bool {
    exists|i: int| 0 <= i < lookup.len() && lookup[i].0@ == name
}

/// Whether `i` is the first entry of `lookup` keyed `name`.
pub open spec fn is_first_entry(lookup: Seq<(String, SkillInfo)>, i: int, name: Seq<char>) -> bool {
    &&& 0 <= i < lookup.len()
    &&& lookup[i].0@ == name
    &&& forall|j: int| 0 <= j < i ==> lookup[j].0@ != name
}

/// The skill of the first entry of `lookup` keyed `name`.
pub open spec fn looked_up(lookup: Seq<(String, SkillInfo)>, name: Seq<char>) -> SkillInfo {
    lookup[choose|i: int| is_first_entry(lookup, i, name)].1
}

/// The skill of the first entry of `lookup` keyed `name`.
fn find_entry(lookup: &Vec<(String, SkillInfo)>, name: &str) -> (r: SkillInfo)
    requires
        has_entry(lookup@, name@),
    ensures
        r == looked_up(lookup@, name@),
{
    let mut k: usize = 0;
    while k < lookup.len()
        invariant
            k <= lookup@.len(),
            forall|j: int| 0 <= j < k ==> lookup@[j].0@ != name@,
        decreases lookup@.len() - k,
    {
        if str_equal(lookup[k].0.as_str(), name) {
            proof {
                let c = choose|i: int| is_first_entry(lookup@, i, name@);
                assert(is_first_entry(lookup@, k as int, name@));
                if c < k {
                    assert(lookup@[c].0@ != name@);
                } else if k < c {
                    assert(lookup@[k as int].0@ != name@);
                }
            }
            return lookup[k].1.duplicate();
        }
        k += 1;
    }
    proof {
        let i = choose|i: int| 0 <= i < lookup@.len() && lookup@[i].0@ == name@;
        assert(lookup@[i].0@ != name@);
    }
    lookup[0].1.duplicate()
}

/// The attack skills before bonuses: one for each class `effects` unlock,
/// and the default attack unless one of them is the quick shot.
pub open spec fn base_attacks(effects: Seq<EquipmentEffect>, lookup: Seq<(String, SkillInfo)>) -> Seq<SkillInfo> {
    let unlocked = unlocked_classes(effects).map_values(|c: Seq<char>| looked_up(lookup, c));
    if exists|i: int| 0 <= i < unlocked.len() && (#[trigger] unlocked[i]).name@ == "Quick Shot"@ {
        unlocked
    } else {
        unlocked.push(looked_up(lookup, "Default"@))
    }
}

/// Whether `lookup` has every skill `base_attacks` reads.
pub open spec fn attacks_found(effects: Seq<EquipmentEffect>, lookup: Seq<(String, SkillInfo)>) -> bool {
    let unlocked = unlocked_classes(effects).map_values(|c: Seq<char>| looked_up(lookup, c));
    &&& forall|i: int| 0 <= i < unlocked_classes(effects).len() ==> has_entry(lookup, #[trigger] unlocked_classes(effects)[i])
    &&& !(exists|i: int| 0 <= i < unlocked.len() && (#[trigger] unlocked[i]).name@ == "Quick Shot"@) ==> has_entry(
        lookup,
        "Default"@,
    )
}

/// The hit `d` with `bonus` more dice, counted as `i32` and kept as `u32`
/// (so that it wraps below zero); its options are dropped.
pub open spec fn boosted_damage(d: Damage, bonus: int) -> Damage {
    spec_damage(((d.amount.dice as i32) + bonus) as u32, d.element.bits, 0)
}

/// The hit an attack `effect` lands, if it lands one.
pub open spec fn attack_hit(effect: SkillEffect) -> Option<Damage> {
    match effect {
        SkillEffect::RangedAttack(d, _) => Some(d),
        SkillEffect::MeleeAttack(d, _) => Some(d),
        SkillEffect::ConeAttack(d, _, _) => Some(d),
        SkillEffect::ChargeAttack(d, _) => Some(d),
        SkillEffect::MoveAndShoot(d, _, _) => Some(d),
        SkillEffect::Orb(d, _, _, _) => Some(d),
        _ => None,
    }
}

/// The effect `effect` with its hit boosted by `bonus` dice.
pub open spec fn boosted_effect(effect: SkillEffect, bonus: int) -> SkillEffect {
    match effect {
        SkillEffect::RangedAttack(d, k) => SkillEffect::RangedAttack(boosted_damage(d, bonus), k),
        SkillEffect::MeleeAttack(d, k) => SkillEffect::MeleeAttack(boosted_damage(d, bonus), k),
        SkillEffect::ConeAttack(d, k, size) => SkillEffect::ConeAttack(boosted_damage(d, bonus), k, size),
        SkillEffect::ChargeAttack(d, k) => SkillEffect::ChargeAttack(boosted_damage(d, bonus), k),
        SkillEffect::MoveAndShoot(d, range, k) => SkillEffect::MoveAndShoot(boosted_damage(d, bonus), range, k),
        SkillEffect::Orb(d, k, speed, duration) => SkillEffect::Orb(boosted_damage(d, bonus), k, speed, duration),
        _ => effect,
    }
}

/// The attack `a` with the bonuses of `effects`: its reach and its hit grow
/// by the weapon's and its own bonuses, counted as `i32` and kept as `u32`.
pub open spec fn boosted_attack(a: SkillInfo, effects: Seq<EquipmentEffect>) -> SkillInfo {
    let w = weapon_bonuses(effects);
    let own = skill_bonuses(effects, a.name@);
    SkillInfo {
        range: match a.range {
            Some(r) => Some((((r as i32) + w.0) + own.0) as u32),
            None => None,
        },
        effect: boosted_effect(a.effect, w.1 + own.1),
        ..a
    }
}

/// Whether boosting `a` by the bonuses of `effects` stays within `i32` at
/// each step.
pub open spec fn boost_fits(a: SkillInfo, effects: Seq<EquipmentEffect>) -> bool {
    let w = weapon_bonuses(effects);
    let own = skill_bonuses(effects, a.name@);
    &&& a.range matches Some(r) ==> fits_i32((r as i32) + w.0) && fits_i32((r as i32) + w.0 + own.0)
    &&& attack_hit(a.effect) matches Some(d) ==> fits_i32((d.amount.dice as i32) + w.1) && fits_i32(
        (d.amount.dice as i32) + w.1 + own.1,
    )
}

/// The weapon bonuses of `effects`.
fn collect_weapon_bonuses(effects: &Vec<EquipmentEffect>) -> (r: (i32, i32))
    requires
        attack_bonuses_fit(effects@),
    ensures
        r.0 == weapon_bonuses(effects@).0,
        r.1 == weapon_bonuses(effects@).1,
{
    let mut range: i32 = 0;
    let mut strength: i32 = 0;
    let mut k: usize = 0;
    while k < effects.len()
        invariant
            k <= effects@.len(),
            attack_bonuses_fit(effects@),
            range == weapon_bonuses(effects@.take(k as int)).0,
            strength == weapon_bonuses(effects@.take(k as int)).1,
        decreases effects@.len() - k,
    {
        assert(effects@.take(k + 1).drop_last() =~= effects@.take(k as int));
        let ghost next = weapon_bonuses(effects@.take(k + 1));
        assert(fits_i32(next.0) && fits_i32(next.1));
        match &effects[k] {
            EquipmentEffect::ModifiesWeaponRange(d) => range = range + *d,
            EquipmentEffect::ModifiesWeaponStrength(d) => strength = strength + *d,
            _ => {},
        }
        k += 1;
    }
    assert(effects@.take(k as int) =~= effects@);
    (range, strength)
}

/// The bonuses of `effects` for the skill `name`.
fn collect_skill_bonuses(effects: &Vec<EquipmentEffect>, name: &str) -> (r: (i32, i32))
    requires
        attack_bonuses_fit(effects@),
    ensures
        r.0 == skill_bonuses(effects@, name@).0,
        r.1 == skill_bonuses(effects@, name@).1,
{
    let mut range: i32 = 0;
    let mut strength: i32 = 0;
    let mut k: usize = 0;
    while k < effects.len()
        invariant
            k <= effects@.len(),
            attack_bonuses_fit(effects@),
            range == skill_bonuses(effects@.take(k as int), name@).0,
            strength == skill_bonuses(effects@.take(k as int), name@).1,
        decreases effects@.len() - k,
    {
        assert(effects@.take(k + 1).drop_last() =~= effects@.take(k as int));
        let ghost next = skill_bonuses(effects@.take(k + 1), name@);
        assert(fits_i32(next.0) && fits_i32(next.1));
        match &effects[k] {
            EquipmentEffect::ModifiesSkillRange(d, skill) => {
                if str_equal(skill.as_str(), name) {
                    range = range + *d;
                }
            },
            EquipmentEffect::ModifiesSkillStrength(d, skill) => {
                if str_equal(skill.as_str(), name) {
                    strength = strength + *d;
                }
            },
            _ => {},
        }
        k += 1;
    }
    assert(effects@.take(k as int) =~= effects@);
    (range, strength)
}

/// The hit `d` with `bonus` more dice (its options dropped).
fn boost_damage(d: &Damage, weapon: i32, own: i32) -> (r: Damage)
    requires
        fits_i32((d.amount.dice as i32) + weapon),
        fits_i32((d.amount.dice as i32) + weapon + own),
    ensures
        r == boosted_damage(*d, weapon + own),
{
    let dice = #[verifier::truncate] ((d.dice() as i32 + weapon + own) as u32);
    Damage::init(dice, d.element.bits)
}

/// The attack `a` with the bonuses of `effects`.
fn boost_attack(a: SkillInfo, effects: &Vec<EquipmentEffect>, weapon: (i32, i32)) -> (r: SkillInfo)
    requires
        attack_bonuses_fit(effects@),
        weapon.0 == weapon_bonuses(effects@).0,
        weapon.1 == weapon_bonuses(effects@).1,
        boost_fits(a, effects@),
    ensures
        r == boosted_attack(a, effects@),
{
    let own = collect_skill_bonuses(effects, a.name);
    let mut a = a;
    a.range = match a.range {
        Some(r) => Some(#[verifier::truncate] ((r as i32 + weapon.0 + own.0) as u32)),
        None => None,
    };
    a.effect = match a.effect {
        SkillEffect::RangedAttack(d, k) => SkillEffect::RangedAttack(boost_damage(&d, weapon.1, own.1), k),
        SkillEffect::MeleeAttack(d, k) => SkillEffect::MeleeAttack(boost_damage(&d, weapon.1, own.1), k),
        SkillEffect::ConeAttack(d, k, size) => SkillEffect::ConeAttack(boost_damage(&d, weapon.1, own.1), k, size),
        SkillEffect::ChargeAttack(d, k) => SkillEffect::ChargeAttack(boost_damage(&d, weapon.1, own.1), k),
        SkillEffect::MoveAndShoot(d, range, k) => SkillEffect::MoveAndShoot(boost_damage(&d, weapon.1, own.1), range, k),
        SkillEffect::Orb(d, k, speed, duration) => SkillEffect::Orb(boost_damage(&d, weapon.1, own.1), k, speed, duration),
        other => other,
    };
    a
}

/// The player's attack skills, looked up by class in `lookup` and boosted by
/// the equipment worn: one for each class unlocked, the default attack unless
/// the quick shot is among them, each reaching and hitting further by the
/// weapon's bonuses and its own.
pub fn collect_attack_skills(equipment: &Equipment, lookup: &Vec<(String, SkillInfo)>) -> (r: Vec<SkillInfo>)
    requires
        attacks_found(equipped_effects(*equipment), lookup@),
        attack_bonuses_fit(equipped_effects(*equipment)),
        forall|i: int|
            0 <= i < base_attacks(equipped_effects(*equipment), lookup@).len() ==> boost_fits(
                #[trigger] base_attacks(equipped_effects(*equipment), lookup@)[i],
                equipped_effects(*equipment),
            ),
    ensures
        r@ == base_attacks(equipped_effects(*equipment), lookup@).map_values(
            |a: SkillInfo| boosted_attack(a, equipped_effects(*equipment)),
        ),
{
    let effects = collect_effects(equipment);
    let ghost classes = unlocked_classes(effects@);
    let ghost unlocked = classes.map_values(|c: Seq<char>| looked_up(lookup@, c));
    let mut base: Vec<SkillInfo> = Vec::new();
    let mut k: usize = 0;
    while k < effects.len()
        invariant
            k <= effects@.len(),
            effects@ == equipped_effects(*equipment),
            attacks_found(effects@, lookup@),
            base@ == unlocked_classes(effects@.take(k as int)).map_values(|c: Seq<char>| looked_up(lookup@, c)),
            unlocked_classes(effects@.take(k as int)).len() <= unlocked_classes(effects@).len(),
            forall|i: int|
                0 <= i < unlocked_classes(effects@.take(k as int)).len() ==> unlocked_classes(effects@.take(k as int))[i]
                    == unlocked_classes(effects@)[i],
        decreases effects@.len() - k,
    {
        assert(effects@.take(k + 1).drop_last() =~= effects@.take(k as int));
        proof {
            lemma_unlocked_prefix(effects@, k as int + 1);
        }
        let ghost before = base@;
        match &effects[k] {
            EquipmentEffect::UnlocksAbilityClass(kind) => {
                let ghost at = unlocked_classes(effects@.take(k as int)).len();
                assert(unlocked_classes(effects@)[at as int] == kind@);
                let skill = find_entry(lookup, kind.as_str());
                base.push(skill);
            },
            _ => {},
        }
        assert(base@ =~= unlocked_classes(effects@.take(k + 1)).map_values(|c: Seq<char>| looked_up(lookup@, c)));
        k += 1;
    }
    assert(effects@.take(k as int) =~= effects@);
    let replacement = default_attack_replacement();
    let mut found = false;
    let mut j: usize = 0;
    while j < base.len()
        invariant
            j <= base@.len(),
            found <==> exists|i: int| 0 <= i < j && (#[trigger] base@[i]).name@ == replacement@,
        decreases base@.len() - j,
    {
        if str_equal(base[j].name, replacement) {
            found = true;
        }
        j += 1;
    }
    if !found {
        base.push(find_entry(lookup, "Default"));
    }
    assert(base@ =~= base_attacks(effects@, lookup@));
    let weapon = collect_weapon_bonuses(&effects);
    let mut out: Vec<SkillInfo> = Vec::new();
    let mut m: usize = 0;
    while m < base.len()
        invariant
            m <= base@.len(),
            effects@ == equipped_effects(*equipment),
            base@ == base_attacks(effects@, lookup@),
            attack_bonuses_fit(effects@),
            weapon.0 == weapon_bonuses(effects@).0,
            weapon.1 == weapon_bonuses(effects@).1,
            forall|i: int| 0 <= i < base@.len() ==> boost_fits(#[trigger] base@[i], effects@),
            out@ == base@.take(m as int).map_values(|a: SkillInfo| boosted_attack(a, effects@)),
        decreases base@.len() - m,
    {
        assert(boost_fits(base@[m as int], effects@));
        let boosted = boost_attack(base[m].duplicate(), &effects, weapon);
        out.push(boosted);
        assert(out@ =~= base@.take(m + 1).map_values(|a: SkillInfo| boosted_attack(a, effects@)));
        m += 1;
    }
    assert(base@.take(m as int) =~= base@);
    out
}

/// The classes unlocked by a prefix of `effects` begin those of `effects`.
proof fn lemma_unlocked_prefix(effects: Seq<EquipmentEffect>, n: int)
    requires
        0 <= n <= effects.len(),
    ensures
        unlocked_classes(effects.take(n)).len() <= unlocked_classes(effects).len(),
        forall|i: int|
            0 <= i < unlocked_classes(effects.take(n)).len() ==> unlocked_classes(effects.take(n))[i] == unlocked_classes(effects)[i],
    decreases effects.len(),
{
    if n < effects.len() {
        lemma_unlocked_prefix(effects.drop_last(), n);
        assert(effects.drop_last().take(n) =~= effects.take(n));
    } else {
        assert(effects.take(n) =~= effects);
    }
}

} // verus!
