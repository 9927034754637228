use vstd::prelude::*;

use crate::clash::content::gunslinger::item_is;
use crate::clash::progression::equipment::{EquipmentItem, EquipmentKinds, EquipmentRarity};

verus! {

/// Whether every item of `items` has no effect.
pub open spec fn no_effects(items: Seq<EquipmentItem>) -> bool {
    forall|k: int| 0 <= k < items.len() ==> (#[trigger] items[k]).effect@.len() == 0
}

/// The armor anyone can find.
fn get_armor() -> (r: Vec<EquipmentItem>)
    ensures
        r@.len() == 5,
        no_effects(r@),
        item_is(r@[0], "Jump Boots"@, "boot_b_01.png"@, EquipmentKinds::Armor, EquipmentRarity::Common),
        item_is(r@[1], "Shield Pin"@, "rune_04_b.png"@, EquipmentKinds::Armor, EquipmentRarity::Common),
        item_is(r@[2], "Wellworn Boots"@, "boot_b_07.png"@, EquipmentKinds::Armor, EquipmentRarity::Common),
        item_is(r@[3], "Cloak of shadows"@, "cl_b_01.png"@, EquipmentKinds::Armor, EquipmentRarity::Uncommon),
        item_is(r@[4], "Blast Gloves"@, "gl_b_04.png"@, EquipmentKinds::Armor, EquipmentRarity::Uncommon),
{
    vec![
        // moves in a straight line
        EquipmentItem::init("Jump Boots", Some("boot_b_01.png"), EquipmentKinds::Armor, EquipmentRarity::Common, &[]),
        // absorb at the start of battle
        EquipmentItem::init("Shield Pin", Some("rune_04_b.png"), EquipmentKinds::Armor, EquipmentRarity::Common, &[]),
        // a free dodge action once per turn, with cooldown and exhaustion
        EquipmentItem::init("Wellworn Boots", Some("boot_b_07.png"), EquipmentKinds::Armor, EquipmentRarity::Common, &[]),
        // warp and two turns of dodge
        EquipmentItem::init("Cloak of shadows", Some("cl_b_01.png"), EquipmentKinds::Armor, EquipmentRarity::Uncommon, &[]),
        // a ranged attack with a cooldown
        EquipmentItem::init("Blast Gloves", Some("gl_b_04.png"), EquipmentKinds::Armor, EquipmentRarity::Uncommon, &[]),
    ]
}

/// The accessories anyone can find.
fn get_accessories() -> (r: Vec<EquipmentItem>)
    ensures
        r@.len() == 10,
        no_effects(r@),
        item_is(r@[0], "Troll's Blood"@, "ptn_b_01.png"@, EquipmentKinds::Accessory, EquipmentRarity::Common),
        item_is(r@[1], "Warp Stone"@, "rune_06_b.png"@, EquipmentKinds::Accessory, EquipmentRarity::Common),
        item_is(r@[2], "Adamantine Skin"@, "pt_b_04.png"@, EquipmentKinds::Accessory, EquipmentRarity::Uncommon),
        item_is(r@[3], "Crush Charm"@, "rune_12_b.png"@, EquipmentKinds::Accessory, EquipmentRarity::Common),
        item_is(r@[4], "Gale Orb"@, "orb_12_b.png"@, EquipmentKinds::Accessory, EquipmentRarity::Common),
        item_is(r@[5], "Terra's Tear"@, "rune_01_b.png"@, EquipmentKinds::Accessory, EquipmentRarity::Uncommon),
        item_is(r@[6], "Rover's Last"@, "collar_b_01.png"@, EquipmentKinds::Accessory, EquipmentRarity::Uncommon),
        item_is(r@[7], "Magma Orb"@, "orb_02_b.png"@, EquipmentKinds::Accessory, EquipmentRarity::Common),
        item_is(r@[8], "Chronowatch"@, "en_craft_2.png"@, EquipmentKinds::Accessory, EquipmentRarity::Rare),
        item_is(r@[9], "Blink Dagger"@, "kn_b_02.png"@, EquipmentKinds::Accessory, EquipmentRarity::Rare),
{
    vec![
        // regeneration for a while
        EquipmentItem::init("Troll's Blood", Some("ptn_b_01.png"), EquipmentKinds::Accessory, EquipmentRarity::Common, &[]),
        // a short-range blink
        EquipmentItem::init("Warp Stone", Some("rune_06_b.png"), EquipmentKinds::Accessory, EquipmentRarity::Common, &[]),
        // armor for a while
        EquipmentItem::init("Adamantine Skin", Some("pt_b_04.png"), EquipmentKinds::Accessory, EquipmentRarity::Uncommon, &[]),
        // a single use absorb gain
        EquipmentItem::init("Crush Charm", Some("rune_12_b.png"), EquipmentKinds::Accessory, EquipmentRarity::Common, &[]),
        // knocks back everything around
        EquipmentItem::init("Gale Orb", Some("orb_12_b.png"), EquipmentKinds::Accessory, EquipmentRarity::Common, &[]),
        // summons a small elemental
        EquipmentItem::init("Terra's Tear", Some("rune_01_b.png"), EquipmentKinds::Accessory, EquipmentRarity::Uncommon, &[]),
        // summons a ghost dog
        EquipmentItem::init("Rover's Last", Some("collar_b_01.png"), EquipmentKinds::Accessory, EquipmentRarity::Uncommon, &[]),
        // cone damage, with focus and cooldown
        EquipmentItem::init("Magma Orb", Some("orb_02_b.png"), EquipmentKinds::Accessory, EquipmentRarity::Common, &[]),
        // a free action
        EquipmentItem::init("Chronowatch", Some("en_craft_2.png"), EquipmentKinds::Accessory, EquipmentRarity::Rare, &[]),
        // teleports in a line and stabs the first in line with piercing damage, with cooldown
        EquipmentItem::init("Blink Dagger", Some("kn_b_02.png"), EquipmentKinds::Accessory, EquipmentRarity::Rare, &[]),
    ]
}

/// The masteries anyone can find.
fn get_masteries() -> (r: Vec<EquipmentItem>)
    ensures
        r@.len() == 3,
        no_effects(r@),
        item_is(r@[0], "Equipment Master"@, "SpellBook06_92.png"@, EquipmentKinds::Mastery, EquipmentRarity::Rare),
        item_is(r@[1], "Fool's Reward"@, "coins_b_03.png"@, EquipmentKinds::Mastery, EquipmentRarity::Rare),
        item_is(r@[2], "The Final Crusade"@, "arm_b_08.png"@, EquipmentKinds::Mastery, EquipmentRarity::Rare),
{
    vec![
        // accessories with charges get two more
        EquipmentItem::init("Equipment Master", Some("SpellBook06_92.png"), EquipmentKinds::Mastery, EquipmentRarity::Rare, &[]),
        // all health but one becomes absorb, armor drops to zero, with a trickle of regeneration
        EquipmentItem::init("Fool's Reward", Some("coins_b_03.png"), EquipmentKinds::Mastery, EquipmentRarity::Rare, &[]),
        // all dodge becomes armor, skill damage rises, no regeneration
        EquipmentItem::init("The Final Crusade", Some("arm_b_08.png"), EquipmentKinds::Mastery, EquipmentRarity::Rare, &[]),
    ]
}

/// The equipment anyone can find: armor, then accessories, then masteries.
pub fn get_equipment() -> (r: Vec<EquipmentItem>)
    ensures
        r@.len() == 18,
        no_effects(r@),
        forall|k: int| 0 <= k < 5 ==> (#[trigger] r@[k]).kind == EquipmentKinds::Armor,
        forall|k: int| 5 <= k < 15 ==> (#[trigger] r@[k]).kind == EquipmentKinds::Accessory,
        forall|k: int| 15 <= k < 18 ==> (#[trigger] r@[k]).kind == EquipmentKinds::Mastery,
        item_is(r@[0], "Jump Boots"@, "boot_b_01.png"@, EquipmentKinds::Armor, EquipmentRarity::Common),
        item_is(r@[1], "Shield Pin"@, "rune_04_b.png"@, EquipmentKinds::Armor, EquipmentRarity::Common),
        item_is(r@[2], "Wellworn Boots"@, "boot_b_07.png"@, EquipmentKinds::Armor, EquipmentRarity::Common),
        item_is(r@[3], "Cloak of shadows"@, "cl_b_01.png"@, EquipmentKinds::Armor, EquipmentRarity::Uncommon),
        item_is(r@[4], "Blast Gloves"@, "gl_b_04.png"@, EquipmentKinds::Armor, EquipmentRarity::Uncommon),
        item_is(r@[5], "Troll's Blood"@, "ptn_b_01.png"@, EquipmentKinds::Accessory, EquipmentRarity::Common),
        item_is(r@[6], "Warp Stone"@, "rune_06_b.png"@, EquipmentKinds::Accessory, EquipmentRarity::Common),
        item_is(r@[7], "Adamantine Skin"@, "pt_b_04.png"@, EquipmentKinds::Accessory, EquipmentRarity::Uncommon),
        item_is(r@[8], "Crush Charm"@, "rune_12_b.png"@, EquipmentKinds::Accessory, EquipmentRarity::Common),
        item_is(r@[9], "Gale Orb"@, "orb_12_b.png"@, EquipmentKinds::Accessory, EquipmentRarity::Common),
        item_is(r@[10], "Terra's Tear"@, "rune_01_b.png"@, EquipmentKinds::Accessory, EquipmentRarity::Uncommon),
        item_is(r@[11], "Rover's Last"@, "collar_b_01.png"@, EquipmentKinds::Accessory, EquipmentRarity::Uncommon),
        item_is(r@[12], "Magma Orb"@, "orb_02_b.png"@, EquipmentKinds::Accessory, EquipmentRarity::Common),
        item_is(r@[13], "Chronowatch"@, "en_craft_2.png"@, EquipmentKinds::Accessory, EquipmentRarity::Rare),
        item_is(r@[14], "Blink Dagger"@, "kn_b_02.png"@, EquipmentKinds::Accessory, EquipmentRarity::Rare),
        item_is(r@[15], "Equipment Master"@, "SpellBook06_92.png"@, EquipmentKinds::Mastery, EquipmentRarity::Rare),
        item_is(r@[16], "Fool's Reward"@, "coins_b_03.png"@, EquipmentKinds::Mastery, EquipmentRarity::Rare),
        item_is(r@[17], "The Final Crusade"@, "arm_b_08.png"@, EquipmentKinds::Mastery, EquipmentRarity::Rare),
{
    let mut equipment = get_armor();
    let mut accessories = get_accessories();
    let mut masteries = get_masteries();
    let ghost a = equipment@;
    let ghost b = accessories@;
    let ghost c = masteries@;
    equipment.append(&mut accessories);
    equipment.append(&mut masteries);
    assert(equipment@ == a + b + c);
    assert forall|k: int| 0 <= k < 5 implies (#[trigger] equipment@[k]).kind == EquipmentKinds::Armor by {
        assert(equipment@[k] == a[k]);
    }
    assert forall|k: int| 5 <= k < 15 implies (#[trigger] equipment@[k]).kind == EquipmentKinds::Accessory by {
        assert(equipment@[k] == b[k - 5]);
    }
    assert forall|k: int| 15 <= k < 18 implies (#[trigger] equipment@[k]).kind == EquipmentKinds::Mastery by {
        assert(equipment@[k] == c[k - 15]);
    }
    assert(no_effects(equipment@)) by {
        assert forall|k: int| 0 <= k < equipment@.len() implies (#[trigger] equipment@[k]).effect@.len() == 0 by {
            if k < 5 {
                assert(equipment@[k] == a[k]);
            } else if k < 15 {
                assert(equipment@[k] == b[k - 5]);
            } else {
                assert(equipment@[k] == c[k - 15]);
            }
        }
    }
    assert(equipment@[0] == a[0]);
    assert(equipment@[1] == a[1]);
    assert(equipment@[2] == a[2]);
    assert(equipment@[3] == a[3]);
    assert(equipment@[4] == a[4]);
    assert(equipment@[5] == b[0]);
    assert(equipment@[6] == b[1]);
    assert(equipment@[7] == b[2]);
    assert(equipment@[8] == b[3]);
    assert(equipment@[9] == b[4]);
    assert(equipment@[10] == b[5]);
    assert(equipment@[11] == b[6]);
    assert(equipment@[12] == b[7]);
    assert(equipment@[13] == b[8]);
    assert(equipment@[14] == b[9]);
    assert(equipment@[15] == c[0]);
    assert(equipment@[16] == c[1]);
    assert(equipment@[17] == c[2]);
    equipment
}

} // verus!
