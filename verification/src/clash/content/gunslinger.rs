use vstd::prelude::*;

use crate::atlas::point::Point;
use crate::clash::progression::equipment::{
    same_item, spec_effect_text, EquipmentEffect, EquipmentItem, EquipmentKinds, EquipmentRarity, EquipmentResource,
};
use crate::clash::content::gunslinger_skills::is_base_skill_name;
use crate::clash::progression::skill_tree::{SkillTreeContents, SkillTreeNode};
use crate::clash::skills::AmmoKind;
use crate::clash::status::StatusKind;
use crate::text::{spec_decimal, str_equal, string_views};

verus! {

/// The gunslinger's kinds of ammunition.
#[derive(Clone, Copy, PartialEq, Eq, Structural, Debug)]
pub enum GunslingerAmmo {
    Magnum,
    Ignite,
    Cyclone,
}

/// The ammunition that comes after `ammo` in the rotation.
pub open spec fn spec_following_ammo(ammo: GunslingerAmmo) -> GunslingerAmmo {
    match ammo {
        GunslingerAmmo::Magnum => GunslingerAmmo::Ignite,
        GunslingerAmmo::Ignite => GunslingerAmmo::Cyclone,
        GunslingerAmmo::Cyclone => GunslingerAmmo::Magnum,
    }
}

/// The first equipped ammunition after `current` in the rotation (coming
/// back to `current` itself when nothing else is equipped).
pub open spec fn spec_next_ammo(current: GunslingerAmmo, equipped: Seq<GunslingerAmmo>) -> GunslingerAmmo {
    let one = spec_following_ammo(current);
    let two = spec_following_ammo(one);
    if equipped.contains(one) {
        one
    } else if equipped.contains(two) {
        two
    } else {
        current
    }
}

/// The ammunition the gunslinger swaps to from `current`, given the kinds
/// equipped (which must hold at least one, else the rotation never ends).
pub fn next_ammo(current: GunslingerAmmo, equipped: &Vec<GunslingerAmmo>) -> (r: GunslingerAmmo)
    requires
        equipped@.len() > 0,
    ensures
        r == spec_next_ammo(current, equipped@),
{
    let mut ammo = current;
    let mut steps: u32 = 0;
    loop
        invariant
            equipped@.len() > 0,
            steps <= 2,
            steps == 0 ==> ammo == current,
            steps == 1 ==> ammo == spec_following_ammo(current) && !equipped@.contains(ammo),
            steps == 2 ==> ammo == spec_following_ammo(spec_following_ammo(current)) && !equipped@.contains(ammo)
                && !equipped@.contains(spec_following_ammo(current)),
        decreases 3 - steps,
    {
        let next = match ammo {
            GunslingerAmmo::Magnum => GunslingerAmmo::Ignite,
            GunslingerAmmo::Ignite => GunslingerAmmo::Cyclone,
            GunslingerAmmo::Cyclone => GunslingerAmmo::Magnum,
        };
        if contains_ammo(equipped, next) {
            return next;
        }
        proof {
            if steps == 2 {
                let e = equipped@[0];
                assert(equipped@.contains(e));
                assert(e == current || e == spec_following_ammo(current) || e == spec_following_ammo(spec_following_ammo(current))) by {
                    match current {
                        GunslingerAmmo::Magnum => {},
                        GunslingerAmmo::Ignite => {},
                        GunslingerAmmo::Cyclone => {},
                    }
                    match e {
                        GunslingerAmmo::Magnum => {},
                        GunslingerAmmo::Ignite => {},
                        GunslingerAmmo::Cyclone => {},
                    }
                }
            }
        }
        ammo = next;
        steps = steps + 1;
    }
}

/// Whether `equipped` holds `ammo`.
fn contains_ammo(equipped: &Vec<GunslingerAmmo>, ammo: GunslingerAmmo) -> (r: bool)
    ensures
        r == equipped@.contains(ammo),
{
    let mut k: usize = 0;
    while k < equipped.len()
        invariant
            k <= equipped@.len(),
            forall|j: int| 0 <= j < k ==> equipped@[j] != ammo,
        decreases equipped@.len() - k,
    {
        if equipped[k] == ammo {
            assert(equipped@[k as int] == ammo);
            return true;
        }
        k = k + 1;
    }
    false
}

/// The ammunition kinds an ability mode name stands for; `None` for a name
/// that is not a mode.
pub open spec fn spec_mode_ammo(mode: Seq<char>) -> Option<GunslingerAmmo> {
    if mode == "Magnum"@ {
        Some(GunslingerAmmo::Magnum)
    } else if mode == "Ignite"@ {
        Some(GunslingerAmmo::Ignite)
    } else if mode == "Cyclone"@ {
        Some(GunslingerAmmo::Cyclone)
    } else {
        None
    }
}

/// The ammunition kinds the unlocked modes give, in order, with magnum put
/// first when no mode gives it. Every mode must be a known one.
pub fn ammo_types_for_modes(modes: &Vec<String>) -> (r: Vec<GunslingerAmmo>)
    requires
        forall|k: int| 0 <= k < modes@.len() ==> (#[trigger] spec_mode_ammo(modes@[k]@)) is Some,
    ensures
        ({
            let given = modes@.map_values(|m: String| spec_mode_ammo(m@).unwrap());
            if given.contains(GunslingerAmmo::Magnum) {
                r@ == given
            } else {
                r@ == seq![GunslingerAmmo::Magnum] + given
            }
        }),
{
    let ghost given = modes@.map_values(|m: String| spec_mode_ammo(m@).unwrap());
    let mut out: Vec<GunslingerAmmo> = Vec::new();
    let mut k: usize = 0;
    while k < modes.len()
        invariant
            forall|j: int| 0 <= j < modes@.len() ==> (#[trigger] spec_mode_ammo(modes@[j]@)) is Some,
            given == modes@.map_values(|m: String| spec_mode_ammo(m@).unwrap()),
            k <= modes@.len(),
            out@ == given.take(k as int),
        decreases modes@.len() - k,
    {
        let m = modes[k].as_str();
        assert(spec_mode_ammo(modes@[k as int]@) is Some);
        let ammo = if str_equal(m, "Magnum") {
            GunslingerAmmo::Magnum
        } else if str_equal(m, "Ignite") {
            GunslingerAmmo::Ignite
        } else {
            GunslingerAmmo::Cyclone
        };
        out.push(ammo);
        k = k + 1;
        assert(out@ =~= given.take(k as int));
    }
    assert(given.take(k as int) =~= given);
    if !contains_ammo(&out, GunslingerAmmo::Magnum) {
        out.insert(0, GunslingerAmmo::Magnum);
        assert(out@ =~= seq![GunslingerAmmo::Magnum] + given);
    }
    out
}

/// The image shown for an ammunition status; only the three ammunition
/// statuses have one.
pub fn get_image_for_status(kind: StatusKind) -> (r: &'static str)
    requires
        kind is Ignite || kind is Cyclone || kind is Magnum,
    ensures
        r@ == match kind {
            StatusKind::Ignite => "b_31_1.png"@,
            StatusKind::Cyclone => "b_40_02.png"@,
            _ => "b_30.png"@,
        },
{
    match kind {
        StatusKind::Ignite => "b_31_1.png",
        StatusKind::Cyclone => "b_40_02.png",
        _ => "b_30.png",
    }
}

/// The image shown for a kind of ammunition.
pub fn get_image_for_kind(ammo: GunslingerAmmo) -> (r: &'static str)
    ensures
        r@ == match ammo {
            GunslingerAmmo::Ignite => "b_31_1.png"@,
            GunslingerAmmo::Cyclone => "b_40_02.png"@,
            GunslingerAmmo::Magnum => "b_30.png"@,
        },
{
    match ammo {
        GunslingerAmmo::Ignite => "b_31_1.png",
        GunslingerAmmo::Cyclone => "b_40_02.png",
        GunslingerAmmo::Magnum => "b_30.png",
    }
}

/// The images of every kind of ammunition.
pub fn get_all_trait_images() -> (r: Vec<&'static str>)
    ensures
        r@.map_values(|s: &'static str| s@) == seq!["b_31_1.png"@, "b_40_02.png"@, "b_30.png"@],
{
    let r = vec!["b_31_1.png", "b_40_02.png", "b_30.png"];
    assert(r@.map_values(|s: &'static str| s@) =~= seq!["b_31_1.png"@, "b_40_02.png"@, "b_30.png"@]);
    r
}

/// The gunslinger's basic attack.
pub fn default_attack() -> (r: &'static str)
    ensures
        r@ == "Snap Shot"@,
{
    "Snap Shot"
}

/// The attack that takes the basic attack's place once unlocked.
pub fn default_attack_replacement() -> (r: &'static str)
    ensures
        r@ == "Quick Shot"@,
{
    "Quick Shot"
}

/// The names of the gunslinger's attack classes.
pub open spec fn spec_all_bases() -> Seq<Seq<char>> {
    seq!["Snap Shot"@, "Aimed Shot"@, "Triple Shot"@, "Quick Shot"@]
}

/// The names of the gunslinger's attack classes.
pub fn get_all_bases() -> (r: Vec<String>)
    ensures
        string_views(r@) == spec_all_bases(),
{
    let r = vec![
        String::from_str("Snap Shot"),
        String::from_str("Aimed Shot"),
        String::from_str("Triple Shot"),
        String::from_str("Quick Shot"),
    ];
    assert(string_views(r@) =~= spec_all_bases());
    r
}

/// The name of the attack class `template` when firing `ammo`; `None` for a
/// class that has no such attack.
pub open spec fn spec_weapon_skill_name(template: Seq<char>, ammo: GunslingerAmmo) -> Option<Seq<char>> {
    match ammo {
        GunslingerAmmo::Magnum => Some(template),
        GunslingerAmmo::Ignite => if template == "Snap Shot"@ {
            Some("Spark Shot"@)
        } else if template == "Aimed Shot"@ {
            Some("Explosive Blast"@)
        } else if template == "Triple Shot"@ {
            Some("Dragon's Breath"@)
        } else if template == "Quick Shot"@ {
            Some("Hot Hands"@)
        } else {
            None
        },
        GunslingerAmmo::Cyclone => if template == "Snap Shot"@ {
            Some("Airburst Shot"@)
        } else if template == "Aimed Shot"@ {
            Some("Air Lance"@)
        } else if template == "Triple Shot"@ {
            Some("Tornado Shot"@)
        } else if template == "Quick Shot"@ {
            Some("Lightning Speed"@)
        } else {
            None
        },
    }
}

/// The name of the attack class `template` when firing `ammo`.
fn weapon_skill_name(template: &String, ammo: GunslingerAmmo) -> (r: String)
    requires
        spec_weapon_skill_name(template@, ammo) is Some,
    ensures
        Some(r@) == spec_weapon_skill_name(template@, ammo),
{
    let t = template.as_str();
    match ammo {
        GunslingerAmmo::Magnum => template.clone(),
        GunslingerAmmo::Ignite => String::from_str(
            if str_equal(t, "Snap Shot") {
                "Spark Shot"
            } else if str_equal(t, "Aimed Shot") {
                "Explosive Blast"
            } else if str_equal(t, "Triple Shot") {
                "Dragon's Breath"
            } else {
                "Hot Hands"
            },
        ),
        GunslingerAmmo::Cyclone => String::from_str(
            if str_equal(t, "Snap Shot") {
                "Airburst Shot"
            } else if str_equal(t, "Aimed Shot") {
                "Air Lance"
            } else if str_equal(t, "Triple Shot") {
                "Tornado Shot"
            } else {
                "Lightning Speed"
            },
        ),
    }
}

/// The attacks the attack classes `templates` give when firing `ammo`, in
/// order. Every class must have an attack for that ammunition.
pub fn get_weapon_skills(templates: &Vec<String>, ammo: GunslingerAmmo) -> (r: Vec<String>)
    requires
        forall|k: int| 0 <= k < templates@.len() ==> (#[trigger] spec_weapon_skill_name(templates@[k]@, ammo)) is Some,
    ensures
        r@.len() == templates@.len(),
        forall|k: int| 0 <= k < r@.len() ==> Some((#[trigger] r@[k])@) == spec_weapon_skill_name(templates@[k]@, ammo),
{
    let mut skills: Vec<String> = Vec::new();
    let mut k: usize = 0;
    while k < templates.len()
        invariant
            forall|j: int| 0 <= j < templates@.len() ==> (#[trigger] spec_weapon_skill_name(templates@[j]@, ammo)) is Some,
            k <= templates@.len(),
            skills@.len() == k,
            forall|j: int| 0 <= j < k ==> Some((#[trigger] skills@[j])@) == spec_weapon_skill_name(templates@[j]@, ammo),
        decreases templates@.len() - k,
    {
        assert(spec_weapon_skill_name(templates@[k as int]@, ammo) is Some);
        skills.push(weapon_skill_name(&templates[k], ammo));
        k = k + 1;
    }
    skills
}

/// The gunslinger's starting resources: (kind, starting amount, maximum).
pub fn base_resources() -> (r: Vec<(AmmoKind, u32, u32)>)
    ensures
        r@ == seq![(AmmoKind::Bullets, 6u32, 6u32), (AmmoKind::Adrenaline, 0u32, 100u32)],
{
    vec![(AmmoKind::Bullets, 6, 6), (AmmoKind::Adrenaline, 0, 100)]
}

/// Whether `item` has the given name, image, kind and rarity.
pub open spec fn item_is(item: EquipmentItem, name: Seq<char>, image: Seq<char>, kind: EquipmentKinds, rarity: EquipmentRarity) -> bool {
    &&& item.name@ == name
    &&& item.image matches Some(i) && i@ == image
    &&& item.kind == kind
    &&& item.rarity == rarity
}

/// The gunslinger's own equipment.
pub fn get_equipment() -> (r: Vec<EquipmentItem>)
    ensures
        r@.len() == 7,
        item_is(r@[0], "Adjustable Sight"@, "gun_06_b.png"@, EquipmentKinds::Weapon, EquipmentRarity::Standard),
        r@[0].effect@.len() == 1 && spec_effect_text(r@[0].effect@[0]) == Some("Unlocks "@ + "Aimed Shot"@ + "."@),
        r@[0].effect@[0] matches EquipmentEffect::UnlocksAbilityClass(k) && k@ == "Aimed Shot"@,
        item_is(r@[1], "Recoil Spring"@, "SpellBook06_22.png"@, EquipmentKinds::Weapon, EquipmentRarity::Standard),
        r@[1].effect@.len() == 1 && spec_effect_text(r@[1].effect@[0]) == Some("Unlocks "@ + "Triple Shot"@ + "."@),
        r@[1].effect@[0] matches EquipmentEffect::UnlocksAbilityClass(k) && k@ == "Triple Shot"@,
        item_is(r@[2], "Stippled Grip"@, "SpellBook03_10.png"@, EquipmentKinds::Weapon, EquipmentRarity::Standard),
        r@[2].effect@.len() == 1 && spec_effect_text(r@[2].effect@[0]) == Some("Unlocks "@ + "Quick Shot"@ + "."@),
        r@[2].effect@[0] matches EquipmentEffect::UnlocksAbilityClass(k) && k@ == "Quick Shot"@,
        item_is(r@[3], "Ignite Ammo"@, "b_31_1.png"@, EquipmentKinds::Weapon, EquipmentRarity::Standard),
        r@[3].effect@.len() == 1 && spec_effect_text(r@[3].effect@[0]) == Some("Unlocks "@ + "Ignite"@ + " abilities."@),
        r@[3].effect@[0] matches EquipmentEffect::UnlocksAbilityMode(k) && k@ == "Ignite"@,
        item_is(r@[4], "Oversized Chamber"@, "gun_12_b.png"@, EquipmentKinds::Weapon, EquipmentRarity::Uncommon),
        r@[4].effect@.len() == 2,
        spec_effect_text(r@[4].effect@[0]) == Some("Maximum "@ + "Bullets"@ + ": "@ + spec_decimal(-3) + "."@),
        spec_effect_text(r@[4].effect@[1]) == Some("Weapon Strength: "@ + spec_decimal(2) + "."@),
        r@[4].effect@[0] matches EquipmentEffect::ModifiesResourceTotal(v, k) && v == -3 && k@ == "Bullets"@,
        r@[4].effect@[1] == EquipmentEffect::ModifiesWeaponStrength(2),
        item_is(r@[5], "Gunslinger's Regret"@, "artifact_01_b.png"@, EquipmentKinds::Accessory, EquipmentRarity::Uncommon),
        r@[5].effect@.len() == 0,
        item_is(r@[6], "Luck of the Draw"@, "book_01_b.png"@, EquipmentKinds::Mastery, EquipmentRarity::Rare),
        r@[6].effect@.len() == 0,
        forall|k: int, j: int|
            0 <= k < r@.len() && 0 <= j < r@[k].effect@.len() ==> (#[trigger] r@[k].effect@[j] matches EquipmentEffect::UnlocksAbilityClass(c)
                ==> is_base_skill_name(c@)),
{
    vec![
        EquipmentItem::init(
            "Adjustable Sight",
            Some("gun_06_b.png"),
            EquipmentKinds::Weapon,
            EquipmentRarity::Standard,
            &[EquipmentEffect::UnlocksAbilityClass(String::from_str("Aimed Shot"))],
        ),
        EquipmentItem::init(
            "Recoil Spring",
            Some("SpellBook06_22.png"),
            EquipmentKinds::Weapon,
            EquipmentRarity::Standard,
            &[EquipmentEffect::UnlocksAbilityClass(String::from_str("Triple Shot"))],
        ),
        EquipmentItem::init(
            "Stippled Grip",
            Some("SpellBook03_10.png"),
            EquipmentKinds::Weapon,
            EquipmentRarity::Standard,
            &[EquipmentEffect::UnlocksAbilityClass(String::from_str("Quick Shot"))],
        ),
        EquipmentItem::init(
            "Ignite Ammo",
            Some("b_31_1.png"),
            EquipmentKinds::Weapon,
            EquipmentRarity::Standard,
            &[EquipmentEffect::UnlocksAbilityMode(String::from_str("Ignite"))],
        ),
        EquipmentItem::init(
            "Oversized Chamber",
            Some("gun_12_b.png"),
            EquipmentKinds::Weapon,
            EquipmentRarity::Uncommon,
            &[
                EquipmentEffect::ModifiesResourceTotal(-3, String::from_str("Bullets")),
                EquipmentEffect::ModifiesWeaponStrength(2),
            ],
        ),
        // summons a shadow that shoots a few times
        EquipmentItem::init("Gunslinger's Regret", Some("artifact_01_b.png"), EquipmentKinds::Accessory, EquipmentRarity::Uncommon, &[]),
        // rotates ammunition every shot, reloading after each, for slightly more skill damage
        EquipmentItem::init("Luck of the Draw", Some("book_01_b.png"), EquipmentKinds::Mastery, EquipmentRarity::Rare, &[]),
    ]
}

/// Where the skill tree draws the node in column `x`, row `y`.
pub open spec fn spec_skill_pos(x: u32, y: u32) -> Point {
    Point { x: (60 + 100 * x) as u32, y: (20 + 50 * y) as u32 }
}

fn skill_pos(x: u32, y: u32) -> (r: Point)
    requires
        x <= 10,
        y <= 10,
    ensures
        r == spec_skill_pos(x, y),
{
    Point::init(60 + (100 * x), 20 + 50 * y)
}

/// Whether `node` unlocks the item of `catalogue` named `name`, drawn at
/// `position`, costing `cost`, after `dependencies`.
pub open spec fn equipment_node_is(
    node: SkillTreeNode,
    catalogue: Map<Seq<char>, EquipmentItem>,
    name: Seq<char>,
    position: Point,
    cost: u32,
    dependencies: Seq<Seq<char>>,
) -> bool {
    &&& node.contents matches SkillTreeContents::Equipment(item) && item.name@ == name && same_item(item, catalogue[name])
    &&& node.position == position
    &&& node.cost == cost
    &&& string_views(node.dependencies@) == dependencies
}

/// The gunslinger's skill tree; the items it unlocks come from `equipment`.
pub fn get_skill_tree(equipment: &EquipmentResource) -> (r: Vec<SkillTreeNode>)
    requires
        equipment.wf(),
        equipment@.contains_key("Adjustable Sight"@),
        equipment@.contains_key("Recoil Spring"@),
        equipment@.contains_key("Stippled Grip"@),
        equipment@.contains_key("Ignite Ammo"@),
    ensures
        r@.len() == 6,
        equipment_node_is(r@[0], equipment@, "Adjustable Sight"@, spec_skill_pos(0, 6), 5, seq![]),
        equipment_node_is(r@[1], equipment@, "Recoil Spring"@, spec_skill_pos(1, 6), 10, seq!["Adjustable Sight"@]),
        equipment_node_is(r@[2], equipment@, "Stippled Grip"@, spec_skill_pos(2, 5), 15, seq!["Recoil Spring"@]),
        r@[3].contents == SkillTreeContents::EquipmentExpansion(EquipmentKinds::Weapon, 1),
        r@[3].position == spec_skill_pos(0, 8) && r@[3].cost == 5 && string_views(r@[3].dependencies@) == Seq::<Seq<char>>::empty(),
        r@[4].contents == SkillTreeContents::EquipmentExpansion(EquipmentKinds::Weapon, 2),
        r@[4].position == spec_skill_pos(1, 8) && r@[4].cost == 5 && string_views(r@[4].dependencies@) == seq!["Weapon Expansion"@],
        equipment_node_is(r@[5], equipment@, "Ignite Ammo"@, spec_skill_pos(0, 4), 5, seq![]),
{
    let no_deps: [&str; 0] = [];
    let after_sight = ["Adjustable Sight"];
    let after_spring = ["Recoil Spring"];
    let after_expansion = ["Weapon Expansion"];
    assert(no_deps@.map_values(|s: &str| s@) =~= Seq::<Seq<char>>::empty());
    assert(after_sight@.map_values(|s: &str| s@) =~= seq!["Adjustable Sight"@]);
    assert(after_spring@.map_values(|s: &str| s@) =~= seq!["Recoil Spring"@]);
    assert(after_expansion@.map_values(|s: &str| s@) =~= seq!["Weapon Expansion"@]);
    let sight = SkillTreeNode::with_equipment(equipment.get("Adjustable Sight"), skill_pos(0, 6), 5, no_deps.as_slice());
    let spring = SkillTreeNode::with_equipment(equipment.get("Recoil Spring"), skill_pos(1, 6), 10, after_sight.as_slice());
    let grip = SkillTreeNode::with_equipment(equipment.get("Stippled Grip"), skill_pos(2, 5), 15, after_spring.as_slice());
    let first = SkillTreeNode::with_expansion(EquipmentKinds::Weapon, 1, skill_pos(0, 8), 5, no_deps.as_slice());
    let second = SkillTreeNode::with_expansion(EquipmentKinds::Weapon, 2, skill_pos(1, 8), 5, after_expansion.as_slice());
    let ignite = SkillTreeNode::with_equipment(equipment.get("Ignite Ammo"), skill_pos(0, 4), 5, no_deps.as_slice());
    let r = vec![sight, spring, grip, first, second, ignite];
    r
}

} // verus!
