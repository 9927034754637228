use vstd::prelude::*;

use super::equipment::{EquipmentItem, EquipmentKinds, EquipmentRarity};
use super::progression_component::ProgressionComponent;

verus! {

/// What an item of a given rarity costs at the merchant; standard items are
/// never sold.
pub open spec fn spec_selection_cost(rarity: EquipmentRarity) -> u32 {
    match rarity {
        EquipmentRarity::Standard => 0,
        EquipmentRarity::Common => 20,
        EquipmentRarity::Uncommon => 50,
        EquipmentRarity::Rare => 100,
    }
}

/// What an equipment slot expansion costs at the merchant.
pub const EXPANSION_COST: u32 = 100;

/// The name under which a store expansion of kind `kind` is recorded.
pub open spec fn spec_store_expansion_name(kind: EquipmentKinds) -> Seq<char> {
    kind.spec_name() + " Store Expansion"@
}

/// What `equip` costs at the merchant.
pub fn selection_cost(equip: &EquipmentItem) -> (r: u32)
    requires
        equip.rarity != EquipmentRarity::Standard,
    ensures
        r == spec_selection_cost(equip.rarity),
{
    match equip.rarity {
        EquipmentRarity::Standard => 0,
        EquipmentRarity::Common => 20,
        EquipmentRarity::Uncommon => 50,
        EquipmentRarity::Rare => 100,
    }
}

/// Whether the player has the influence to buy `equipment`.
pub fn can_purchase_selection(progression: &ProgressionComponent, equipment: &EquipmentItem) -> (r: bool)
    requires
        equipment.rarity != EquipmentRarity::Standard,
    ensures
        r == (progression.state.influence >= spec_selection_cost(equipment.rarity)),
{
    let cost = selection_cost(equipment);
    let influence = progression.state.influence;
    influence >= cost
}

/// Buys `equipment` if the player can afford it: its name joins the items and
/// its cost leaves the influence. Otherwise nothing changes.
pub fn purchase_selection(progression: &mut ProgressionComponent, equipment: &EquipmentItem)
    requires
        equipment.rarity != EquipmentRarity::Standard,
    ensures
        old(progression).state.influence >= spec_selection_cost(equipment.rarity) ==> {
            &&& final(progression).state.items@ == old(progression).state.items@.insert(equipment.name@)
            &&& final(progression).state.influence == old(progression).state.influence - spec_selection_cost(equipment.rarity)
        },
        old(progression).state.influence < spec_selection_cost(equipment.rarity) ==> {
            &&& final(progression).state.items@ == old(progression).state.items@
            &&& final(progression).state.influence == old(progression).state.influence
        },
        final(progression).state.phase == old(progression).state.phase,
        final(progression).state.equipment_expansions@ == old(progression).state.equipment_expansions@,
        final(progression).state.weapon == old(progression).state.weapon,
        final(progression).state.equipment == old(progression).state.equipment,
{
    if can_purchase_selection(progression, equipment) {
        progression.state.items.insert(equipment.name.clone());
        progression.state.influence = progression.state.influence - selection_cost(equipment);
    }
}

/// Whether the player has the influence to buy an equipment expansion.
pub fn can_purchase_expansion(progression: &ProgressionComponent) -> (r: bool)
    ensures
        r == (progression.state.influence >= EXPANSION_COST),
{
    let influence = progression.state.influence;
    influence >= EXPANSION_COST
}

/// Records a store expansion of kind `kind` and adds its slot; the store
/// grants one such slot per kind.
pub fn purchase_expansion(progression: &mut ProgressionComponent, kind: EquipmentKinds)
    requires
        old(progression).state.equipment.slots(kind).len() < usize::MAX,
    ensures
        final(progression).state.equipment_expansions@ == old(progression).state.equipment_expansions@.insert(
            spec_store_expansion_name(kind),
        ),
        !old(progression).state.equipment.extensions().contains(kind) ==> final(progression).state.equipment.slots(kind)
            == old(progression).state.equipment.slots(kind).push(None),
        old(progression).state.equipment.extensions().contains(kind) ==> final(progression).state.equipment.slots(kind)
            == old(progression).state.equipment.slots(kind),
        forall|k: EquipmentKinds| k != kind ==> #[trigger] final(progression).state.equipment.slots(k) == old(
            progression,
        ).state.equipment.slots(k),
        final(progression).state.equipment.extensions() == old(progression).state.equipment.extensions().insert(kind),
        final(progression).state.phase == old(progression).state.phase,
        final(progression).state.influence == old(progression).state.influence,
        final(progression).state.items@ == old(progression).state.items@,
        final(progression).state.weapon == old(progression).state.weapon,
{
    let mut name = String::from_str(kind.name());
    name.append(" Store Expansion");
    progression.state.equipment_expansions.insert(name);
    progression.state.equipment.extend(kind, true);
}

} // verus!
