use vstd::prelude::*;

use crate::clash::combat::BoltKind;
use crate::clash::content::gunslinger::{get_weapon_skills, spec_weapon_skill_name, GunslingerAmmo};
use crate::clash::damage::{spec_damage, Damage, DamageElement, DamageOptions};
use crate::clash::skill_resources::{with_skills, SkillsResource};
use crate::clash::skills::{AmmoInfo, AmmoKind, SkillEffect, SkillInfo, TargetType};
use crate::text::{str_equal, string_views};

verus! {

/// A skill of the gunslinger's attack classes, reloaded by "Reload" and
/// spending `bullets` bullets per use.
pub open spec fn gun_skill(
    name: &'static str,
    image: &'static str,
    target: TargetType,
    effect: SkillEffect,
    range: u32,
    bullets: u32,
) -> SkillInfo {
    SkillInfo {
        ammo_info: Some(AmmoInfo { kind: AmmoKind::Bullets, usage: bullets }),
        alternate: Some("Reload"),
        ..SkillInfo::spec_init_with_distance(name, Some(image), target, effect, Some(range), true)
    }
}

/// Whether `name` names one of the gunslinger's attack classes ("Default"
/// standing for "Snap Shot").
pub open spec fn is_base_skill_name(name: Seq<char>) -> bool {
    name == "Default"@ || name == "Snap Shot"@ || name == "Aimed Shot"@ || name == "Triple Shot"@ || name == "Quick Shot"@
}

/// The attack class named `name`, as fired with magnum bullets.
pub open spec fn spec_base_skill(name: Seq<char>) -> SkillInfo {
    if name == "Default"@ || name == "Snap Shot"@ {
        gun_skill(
            "Snap Shot",
            "gun_08_b.png",
            TargetType::Enemy,
            SkillEffect::RangedAttack(spec_damage(4, DamageElement::PHYSICAL, 0), BoltKind::Bullet),
            7,
            1,
        )
    } else if name == "Aimed Shot"@ {
        SkillInfo {
            focus_use: Some(50u32),
            ..gun_skill(
                "Aimed Shot",
                "gun_06_b.png",
                TargetType::Enemy,
                SkillEffect::RangedAttack(
                    spec_damage(6, DamageElement::PHYSICAL, DamageOptions::AIMED_SHOT),
                    BoltKind::Bullet,
                ),
                6,
                1,
            )
        }
    } else if name == "Triple Shot"@ {
        gun_skill(
            "Triple Shot",
            "SpellBook06_22.png",
            TargetType::Enemy,
            SkillEffect::RangedAttack(spec_damage(4, DamageElement::PHYSICAL, DamageOptions::TRIPLE_SHOT), BoltKind::Bullet),
            4,
            3,
        )
    } else {
        SkillInfo {
            exhaustion: Some(4000u32),
            ..gun_skill(
                "Quick Shot",
                "SpellBook03_10.png",
                TargetType::Tile,
                SkillEffect::MoveAndShoot(spec_damage(4, DamageElement::PHYSICAL, 0), Some(5u32), BoltKind::Bullet),
                1,
                1,
            )
        }
    }
}

/// The gunslinger's attack class named `name`, as fired with magnum bullets.
pub fn get_base_skill(name: &str) -> (r: SkillInfo)
    requires
        is_base_skill_name(name@),
    ensures
        r == spec_base_skill(name@),
{
    assert(0u32 | DamageOptions::AIMED_SHOT == DamageOptions::AIMED_SHOT) by (bit_vector);
    assert(0u32 | DamageOptions::TRIPLE_SHOT == DamageOptions::TRIPLE_SHOT) by (bit_vector);
    if str_equal(name, "Default") || str_equal(name, "Snap Shot") {
        SkillInfo::init_with_distance(
            "Snap Shot",
            Some("gun_08_b.png"),
            TargetType::Enemy,
            SkillEffect::RangedAttack(Damage::init(4, DamageElement::PHYSICAL), BoltKind::Bullet),
            Some(7),
            true,
        ).with_ammo(AmmoKind::Bullets, 1).with_alternate("Reload")
    } else if str_equal(name, "Aimed Shot") {
        SkillInfo::init_with_distance(
            "Aimed Shot",
            Some("gun_06_b.png"),
            TargetType::Enemy,
            SkillEffect::RangedAttack(
                Damage::init(6, DamageElement::PHYSICAL).with_option(DamageOptions::AIMED_SHOT),
                BoltKind::Bullet,
            ),
            Some(6),
            true,
        ).with_ammo(AmmoKind::Bullets, 1).with_focus_use(50).with_alternate("Reload")
    } else if str_equal(name, "Triple Shot") {
        SkillInfo::init_with_distance(
            "Triple Shot",
            Some("SpellBook06_22.png"),
            TargetType::Enemy,
            SkillEffect::RangedAttack(
                Damage::init(4, DamageElement::PHYSICAL).with_option(DamageOptions::TRIPLE_SHOT),
                BoltKind::Bullet,
            ),
            Some(4),
            true,
        ).with_ammo(AmmoKind::Bullets, 3).with_alternate("Reload")
    } else {
        SkillInfo::init_with_distance(
            "Quick Shot",
            Some("SpellBook03_10.png"),
            TargetType::Tile,
            SkillEffect::MoveAndShoot(Damage::init(4, DamageElement::PHYSICAL), Some(5), BoltKind::Bullet),
            Some(1),
            true,
        ).with_ammo(AmmoKind::Bullets, 1).with_exhaustion(4000).with_alternate("Reload")
    }
}

/// Whether `i` is the first position in `templates` of a skill named `name`.
pub open spec fn is_first_named(templates: Seq<SkillInfo>, i: int, name: Seq<char>) -> bool {
    &&& 0 <= i < templates.len()
    &&& templates[i].name@ == name
    &&& forall|j: int| 0 <= j < i ==> templates[j].name@ != name
}

/// Whether some skill of `templates` is named `name`.
pub open spec fn has_named(templates: Seq<SkillInfo>, name: Seq<char>) -> bool {
    exists|i: int| 0 <= i < templates.len() && templates[i].name@ == name
}

/// The first skill of `templates` named `name` (meaningful when there is one).
pub open spec fn first_named(templates: Seq<SkillInfo>, name: Seq<char>) -> SkillInfo {
    templates[choose|i: int| is_first_named(templates, i, name)]
}

/// The first position of a name is the position `first_named` reads.
proof fn lemma_first_named(templates: Seq<SkillInfo>, i: int, name: Seq<char>)
    requires
        is_first_named(templates, i, name),
    ensures
        first_named(templates, name) == templates[i],
{
    let j = choose|j: int| is_first_named(templates, j, name);
    assert(is_first_named(templates, j, name));
    if j < i {
        assert(templates[j].name@ != name);
    } else if i < j {
        assert(templates[i].name@ != name);
    }
}

/// The first position in `templates` of a skill named `name`.
fn find_template(templates: &Vec<SkillInfo>, name: &str) -> (r: usize)
    requires
        has_named(templates@, name@),
    ensures
        is_first_named(templates@, r as int, name@),
        first_named(templates@, name@) == templates@[r as int],
{
    let mut k: usize = 0;
    while k < templates.len()
        invariant
            k <= templates.len(),
            forall|j: int| 0 <= j < k ==> templates@[j].name@ != name@,
        decreases templates.len() - k,
    {
        if str_equal(templates[k].name, name) {
            proof {
                lemma_first_named(templates@, k as int, name@);
            }
            return k;
        }
        k += 1;
    }
    proof {
        let i = choose|i: int| 0 <= i < templates@.len() && templates@[i].name@ == name@;
        assert(templates@[i].name@ != name@);
    }
    0
}

/// The attack class that the attack `name`, fired with `ammo`, is built
/// from; `None` for a name that has no such attack.
pub open spec fn spec_base_name(name: Seq<char>, ammo: GunslingerAmmo) -> Option<Seq<char>> {
    match ammo {
        GunslingerAmmo::Magnum => Some(name),
        GunslingerAmmo::Ignite => if name == "Spark Shot"@ {
            Some("Snap Shot"@)
        } else if name == "Explosive Blast"@ {
            Some("Aimed Shot"@)
        } else if name == "Dragon's Breath"@ {
            Some("Triple Shot"@)
        } else if name == "Hot Hands"@ {
            Some("Quick Shot"@)
        } else {
            None
        },
        GunslingerAmmo::Cyclone => if name == "Airburst Shot"@ {
            Some("Snap Shot"@)
        } else if name == "Air Lance"@ {
            Some("Aimed Shot"@)
        } else if name == "Tornado Shot"@ {
            Some("Triple Shot"@)
        } else if name == "Lightning Speed"@ {
            Some("Quick Shot"@)
        } else {
            None
        },
    }
}

/// The strength of the attack `effect`: that of its hit.
pub open spec fn attack_dice(effect: SkillEffect) -> int {
    match effect {
        SkillEffect::RangedAttack(d, _) => d.amount.dice as int,
        SkillEffect::MoveAndShoot(d, _, _) => d.amount.dice as int,
        _ => 0,
    }
}

/// How far a move-and-shoot effect shoots (`None` for any other effect).
pub open spec fn shot_range(effect: SkillEffect) -> Option<u32> {
    match effect {
        SkillEffect::MoveAndShoot(_, range, _) => range,
        _ => None,
    }
}

/// `range` reaching `extra` further (still no limit for `None`).
pub open spec fn spec_range_plus(range: Option<u32>, extra: u32) -> Option<u32> {
    match range {
        Some(r) => Some((r + extra) as u32),
        None => None,
    }
}

/// `range` reaching `extra` further (still no limit for `None`).
fn range_plus(range: Option<u32>, extra: u32) -> (r: Option<u32>)
    requires
        range matches Some(x) ==> x + extra <= u32::MAX,
    ensures
        r == spec_range_plus(range, extra),
{
    match range {
        Some(x) => Some(x + extra),
        None => None,
    }
}

/// How many dice weaker than its class the attack `name` hits.
pub open spec fn dice_cut(name: Seq<char>) -> int {
    if name == "Air Lance"@ {
        2
    } else {
        1
    }
}

/// How much further than its class the attack `name` reaches.
pub open spec fn range_gain(name: Seq<char>) -> int {
    if name == "Spark Shot"@ || name == "Explosive Blast"@ {
        1
    } else if name == "Dragon's Breath"@ {
        2
    } else if name == "Hot Hands"@ {
        0
    } else if name == "Airburst Shot"@ {
        2
    } else if name == "Air Lance"@ {
        3
    } else if name == "Tornado Shot"@ {
        2
    } else {
        0
    }
}

/// Whether the attack `name` with `ammo` can be built from the class
/// `base`: its hit is a ranged or move-and-shoot attack strong enough to
/// lose its dice, a moving attack's class moves, and the longer reaches fit
/// in `u32`.
pub open spec fn concrete_skill_fits(name: Seq<char>, ammo: GunslingerAmmo, base: SkillInfo) -> bool {
    ammo is Magnum || {
        &&& (base.effect is RangedAttack || base.effect is MoveAndShoot)
        &&& attack_dice(base.effect) >= dice_cut(name)
        &&& (name == "Hot Hands"@ || name == "Lightning Speed"@) ==> base.effect is MoveAndShoot
        &&& base.range matches Some(r) ==> r + range_gain(name) <= u32::MAX
        &&& name == "Lightning Speed"@ ==> (shot_range(base.effect) matches Some(r) ==> r + 1 <= u32::MAX)
    }
}

/// The attack `name` fired with `ammo`, built from its class `base`: with
/// magnum bullets the class itself; otherwise renamed, with its own image,
/// a longer reach, a weaker hit of other kinds and options, and another
/// look of bolt.
pub open spec fn spec_concrete_skill(name: Seq<char>, ammo: GunslingerAmmo, base: SkillInfo) -> SkillInfo {
    if ammo is Magnum {
        base
    } else {
        let dice = (attack_dice(base.effect) - 1) as u32;
        if name == "Spark Shot"@ {
            SkillInfo {
                name: "Spark Shot",
                image: Some("gun_01_b.png"),
                range: spec_range_plus(base.range, 1),
                effect: SkillEffect::RangedAttack(
                    spec_damage(dice, DamageElement::PHYSICAL, DamageOptions::RAISE_TEMPERATURE),
                    BoltKind::FireBullet,
                ),
                ..base
            }
        } else if name == "Explosive Blast"@ {
            SkillInfo {
                name: "Explosive Blast",
                image: Some("SpellBook01_37.png"),
                range: spec_range_plus(base.range, 1),
                effect: SkillEffect::RangedAttack(
                    spec_damage(
                        dice,
                        DamageElement::PHYSICAL | DamageElement::FIRE,
                        DamageOptions::RAISE_TEMPERATURE | DamageOptions::LARGE_TEMPERATURE_DELTA,
                    ),
                    BoltKind::FireBullet,
                ),
                ..base
            }
        } else if name == "Dragon's Breath"@ {
            SkillInfo {
                name: "Dragon's Breath",
                image: Some("r_16.png"),
                range: spec_range_plus(base.range, 2),
                effect: SkillEffect::RangedAttack(
                    spec_damage(dice, DamageElement::FIRE, DamageOptions::TRIPLE_SHOT | DamageOptions::RAISE_TEMPERATURE),
                    BoltKind::FireBullet,
                ),
                ..base
            }
        } else if name == "Hot Hands"@ {
            SkillInfo {
                name: "Hot Hands",
                image: Some("SpellBook01_15.png"),
                effect: SkillEffect::MoveAndShoot(
                    spec_damage(dice, DamageElement::PHYSICAL, DamageOptions::RAISE_TEMPERATURE),
                    shot_range(base.effect),
                    BoltKind::FireBullet,
                ),
                ..base
            }
        } else if name == "Airburst Shot"@ {
            SkillInfo {
                name: "Airburst Shot",
                image: Some("gun_01_b.png"),
                range: spec_range_plus(base.range, 2),
                effect: SkillEffect::RangedAttack(
                    spec_damage(dice, DamageElement::PHYSICAL, DamageOptions::ADD_CHARGE_STATUS),
                    BoltKind::AirBullet,
                ),
                ..base
            }
        } else if name == "Air Lance"@ {
            SkillInfo {
                name: "Air Lance",
                image: Some("SpellBook06_46.png"),
                range: spec_range_plus(base.range, 3),
                effect: SkillEffect::RangedAttack(
                    spec_damage((dice - 1) as u32, DamageElement::PHYSICAL, DamageOptions::CONSUMES_CHARGE_KNOCKBACK),
                    BoltKind::AirBullet,
                ),
                ..base
            }
        } else if name == "Tornado Shot"@ {
            SkillInfo {
                name: "Tornado Shot",
                image: Some("SpellBookPage09_66.png"),
                range: spec_range_plus(base.range, 2),
                effect: SkillEffect::RangedAttack(
                    spec_damage(
                        dice,
                        DamageElement::PHYSICAL | DamageElement::LIGHTNING,
                        DamageOptions::TRIPLE_SHOT | DamageOptions::CONSUMES_CHARGE_DMG,
                    ),
                    BoltKind::AirBullet,
                ),
                ..base
            }
        } else if name == "Lightning Speed"@ {
            SkillInfo {
                name: "Lightning Speed",
                image: Some("SpellBookPage09_39.png"),
                effect: SkillEffect::MoveAndShoot(
                    spec_damage(dice, DamageElement::PHYSICAL, DamageOptions::ADD_CHARGE_STATUS),
                    spec_range_plus(shot_range(base.effect), 1),
                    BoltKind::AirBullet,
                ),
                ..base
            }
        } else {
            base
        }
    }
}

/// Options set one after the other on a hit that had none.
proof fn lemma_options_from_none(a: u32, b: u32)
    ensures
        0u32 | a == a,
        (0u32 | a) | b == a | b,
{
    assert(0u32 | a == a) by (bit_vector);
    assert((0u32 | a) | b == a | b) by (bit_vector);
}

/// The strength of the attack `effect`.
fn effect_dice(effect: &SkillEffect) -> (r: u32)
    ensures
        r == attack_dice(*effect),
{
    match effect {
        SkillEffect::RangedAttack(d, _) => d.dice(),
        SkillEffect::MoveAndShoot(d, _, _) => d.dice(),
        _ => 0,
    }
}

/// How far the move-and-shoot `effect` shoots.
fn effect_shot_range(effect: &SkillEffect) -> (r: Option<u32>)
    ensures
        r == shot_range(*effect),
{
    match effect {
        SkillEffect::MoveAndShoot(_, range, _) => *range,
        _ => None,
    }
}

/// The attack `name` fired with `ammo`, built from the first skill in
/// `templates` named after its class.
pub fn get_concrete_skill(name: &str, ammo: GunslingerAmmo, templates: &Vec<SkillInfo>) -> (r: SkillInfo)
    requires
        spec_base_name(name@, ammo) is Some,
        has_named(templates@, spec_base_name(name@, ammo)->0),
        concrete_skill_fits(name@, ammo, first_named(templates@, spec_base_name(name@, ammo)->0)),
    ensures
        r == spec_concrete_skill(name@, ammo, first_named(templates@, spec_base_name(name@, ammo)->0)),
{
    let base_name: &str = match ammo {
        GunslingerAmmo::Magnum => name,
        GunslingerAmmo::Ignite => if str_equal(name, "Spark Shot") {
            "Snap Shot"
        } else if str_equal(name, "Explosive Blast") {
            "Aimed Shot"
        } else if str_equal(name, "Dragon's Breath") {
            "Triple Shot"
        } else {
            "Quick Shot"
        },
        GunslingerAmmo::Cyclone => if str_equal(name, "Airburst Shot") {
            "Snap Shot"
        } else if str_equal(name, "Air Lance") {
            "Aimed Shot"
        } else if str_equal(name, "Tornado Shot") {
            "Triple Shot"
        } else {
            "Quick Shot"
        },
    };
    let index = find_template(templates, base_name);
    let base = &templates[index];
    if let GunslingerAmmo::Magnum = ammo {
        return base.duplicate();
    }
    let mut skill = base.duplicate();
    let dice = effect_dice(&skill.effect);
    let shot = effect_shot_range(&skill.effect);
    proof {
        lemma_options_from_none(DamageOptions::RAISE_TEMPERATURE, DamageOptions::LARGE_TEMPERATURE_DELTA);
        lemma_options_from_none(DamageOptions::TRIPLE_SHOT, DamageOptions::RAISE_TEMPERATURE);
        lemma_options_from_none(DamageOptions::TRIPLE_SHOT, DamageOptions::CONSUMES_CHARGE_DMG);
        lemma_options_from_none(DamageOptions::ADD_CHARGE_STATUS, 0);
        lemma_options_from_none(DamageOptions::CONSUMES_CHARGE_KNOCKBACK, 0);
    }
    if str_equal(name, "Spark Shot") {
        skill.name = "Spark Shot";
        skill.image = Some("gun_01_b.png");
        skill.range = range_plus(skill.range, 1);
        skill.effect = SkillEffect::RangedAttack(
            Damage::init(dice - 1, DamageElement::PHYSICAL).with_option(DamageOptions::RAISE_TEMPERATURE),
            BoltKind::FireBullet,
        );
    } else if str_equal(name, "Explosive Blast") {
        skill.name = "Explosive Blast";
        skill.image = Some("SpellBook01_37.png");
        skill.range = range_plus(skill.range, 1);
        skill.effect = SkillEffect::RangedAttack(
            Damage::init(dice - 1, DamageElement::PHYSICAL | DamageElement::FIRE).with_option(DamageOptions::RAISE_TEMPERATURE).with_option(
                DamageOptions::LARGE_TEMPERATURE_DELTA,
            ),
            BoltKind::FireBullet,
        );
    } else if str_equal(name, "Dragon's Breath") {
        skill.name = "Dragon's Breath";
        skill.image = Some("r_16.png");
        skill.range = range_plus(skill.range, 2);
        skill.effect = SkillEffect::RangedAttack(
            Damage::init(dice - 1, DamageElement::FIRE).with_option(DamageOptions::TRIPLE_SHOT).with_option(
                DamageOptions::RAISE_TEMPERATURE,
            ),
            BoltKind::FireBullet,
        );
    } else if str_equal(name, "Hot Hands") {
        skill.name = "Hot Hands";
        skill.image = Some("SpellBook01_15.png");
        skill.effect = SkillEffect::MoveAndShoot(
            Damage::init(dice - 1, DamageElement::PHYSICAL).with_option(DamageOptions::RAISE_TEMPERATURE),
            shot,
            BoltKind::FireBullet,
        );
    } else if str_equal(name, "Airburst Shot") {
        skill.name = "Airburst Shot";
        skill.image = Some("gun_01_b.png");
        skill.range = range_plus(skill.range, 2);
        skill.effect = SkillEffect::RangedAttack(
            Damage::init(dice - 1, DamageElement::PHYSICAL).with_option(DamageOptions::ADD_CHARGE_STATUS),
            BoltKind::AirBullet,
        );
    } else if str_equal(name, "Air Lance") {
        skill.name = "Air Lance";
        skill.image = Some("SpellBook06_46.png");
        skill.range = range_plus(skill.range, 3);
        skill.effect = SkillEffect::RangedAttack(
            Damage::init(dice - 2, DamageElement::PHYSICAL).with_option(DamageOptions::CONSUMES_CHARGE_KNOCKBACK),
            BoltKind::AirBullet,
        );
    } else if str_equal(name, "Tornado Shot") {
        skill.name = "Tornado Shot";
        skill.image = Some("SpellBookPage09_66.png");
        skill.range = range_plus(skill.range, 2);
        skill.effect = SkillEffect::RangedAttack(
            Damage::init(dice - 1, DamageElement::PHYSICAL | DamageElement::LIGHTNING).with_option(DamageOptions::TRIPLE_SHOT).with_option(
                DamageOptions::CONSUMES_CHARGE_DMG,
            ),
            BoltKind::AirBullet,
        );
    } else if str_equal(name, "Lightning Speed") {
        skill.name = "Lightning Speed";
        skill.image = Some("SpellBookPage09_39.png");
        skill.effect = SkillEffect::MoveAndShoot(
            Damage::init(dice - 1, DamageElement::PHYSICAL).with_option(DamageOptions::ADD_CHARGE_STATUS),
            range_plus(shot, 1),
            BoltKind::AirBullet,
        );
    }
    skill
}

/// Whether `name` names one of the gunslinger's attack classes.
pub open spec fn is_attack_class(name: Seq<char>) -> bool {
    name == "Snap Shot"@ || name == "Aimed Shot"@ || name == "Triple Shot"@ || name == "Quick Shot"@
}

/// The attack of an attack class fired with any ammunition is built from
/// that class.
proof fn lemma_base_of_weapon_name(template: Seq<char>, ammo: GunslingerAmmo)
    requires
        is_attack_class(template),
    ensures
        spec_weapon_skill_name(template, ammo) is Some,
        spec_base_name(spec_weapon_skill_name(template, ammo)->0, ammo) == Some(template),
{
    reveal_strlit("Snap Shot");
    reveal_strlit("Aimed Shot");
    reveal_strlit("Triple Shot");
    reveal_strlit("Quick Shot");
    reveal_strlit("Spark Shot");
    reveal_strlit("Explosive Blast");
    reveal_strlit("Dragon's Breath");
    reveal_strlit("Hot Hands");
    reveal_strlit("Airburst Shot");
    reveal_strlit("Air Lance");
    reveal_strlit("Tornado Shot");
    reveal_strlit("Lightning Speed");
    assert("Snap Shot"@[0] == 'S');
    assert("Aimed Shot"@[0] == 'A');
    assert("Triple Shot"@[0] == 'T');
    assert("Quick Shot"@[0] == 'Q');
    assert("Spark Shot"@[0] == 'S');
    assert("Explosive Blast"@[0] == 'E');
    assert("Dragon's Breath"@[0] == 'D');
    assert("Hot Hands"@[0] == 'H');
    assert("Airburst Shot"@[0] == 'A');
    assert("Air Lance"@[0] == 'A');
    assert("Tornado Shot"@[0] == 'T');
    assert("Lightning Speed"@[0] == 'L');
    assert("Airburst Shot"@[3] == 'b');
    assert("Air Lance"@[3] == ' ');
}

/// The gunslinger's attacks fired with `ammo`, one for each class of
/// `template_names`, each built from the first skill of `templates` named
/// after its class.
pub open spec fn ammo_attacks(template_names: Seq<Seq<char>>, templates: Seq<SkillInfo>, ammo: GunslingerAmmo) -> Seq<SkillInfo> {
    template_names.map_values(
        |t: Seq<char>| spec_concrete_skill(spec_weapon_skill_name(t, ammo)->0, ammo, first_named(templates, t)),
    )
}

/// Whether the attacks of each class of `template_names` can be built from
/// `templates` for every ammunition.
pub open spec fn attacks_buildable(template_names: Seq<Seq<char>>, templates: Seq<SkillInfo>) -> bool {
    forall|k: int|
        #![trigger template_names[k]]
        0 <= k < template_names.len() ==> {
            &&& is_attack_class(template_names[k])
            &&& has_named(templates, template_names[k])
            &&& forall|ammo: GunslingerAmmo|
                concrete_skill_fits(
                    spec_weapon_skill_name(template_names[k], ammo)->0,
                    ammo,
                    #[trigger] first_named(templates, template_names[k]),
                )
        }
}

/// Appends the gunslinger's attacks fired with `ammo` to `all`.
fn push_ammo_attacks(all: &mut Vec<SkillInfo>, template_names: &Vec<String>, templates: &Vec<SkillInfo>, ammo: GunslingerAmmo)
    requires
        attacks_buildable(string_views(template_names@), templates@),
    ensures
        final(all)@ == old(all)@ + ammo_attacks(string_views(template_names@), templates@, ammo),
{
    let ghost names = string_views(template_names@);
    assert forall|k: int| 0 <= k < template_names@.len() implies (#[trigger] spec_weapon_skill_name(
        template_names@[k]@,
        ammo,
    )) is Some by {
        assert(names[k] == template_names@[k]@);
        lemma_base_of_weapon_name(names[k], ammo);
    }
    let weapon_names = get_weapon_skills(template_names, ammo);
    let ghost start = all@;
    let mut k: usize = 0;
    while k < weapon_names.len()
        invariant
            k <= weapon_names@.len(),
            weapon_names@.len() == template_names@.len(),
            names == string_views(template_names@),
            attacks_buildable(names, templates@),
            forall|j: int|
                0 <= j < weapon_names@.len() ==> Some((#[trigger] weapon_names@[j])@) == spec_weapon_skill_name(template_names@[j]@, ammo),
            all@ == start + ammo_attacks(names, templates@, ammo).subrange(0, k as int),
        decreases weapon_names@.len() - k,
    {
        let ghost t = names[k as int];
        assert(t == template_names@[k as int]@);
        proof {
            lemma_base_of_weapon_name(t, ammo);
        }
        assert(weapon_names@[k as int]@ == spec_weapon_skill_name(t, ammo)->0);
        assert(concrete_skill_fits(spec_weapon_skill_name(t, ammo)->0, ammo, first_named(templates@, t)));
        let skill = get_concrete_skill(weapon_names[k].as_str(), ammo, templates);
        all.push(skill);
        assert(ammo_attacks(names, templates@, ammo).subrange(0, k + 1) =~= ammo_attacks(names, templates@, ammo).subrange(
            0,
            k as int,
        ).push(skill));
        k += 1;
    }
    assert(ammo_attacks(names, templates@, ammo).subrange(0, k as int) =~= ammo_attacks(names, templates@, ammo));
}

/// The skill that reloads the gunslinger's bullets.
pub open spec fn reload_skill() -> SkillInfo {
    SkillInfo::spec_init_with_distance(
        "Reload",
        Some("b_45.png"),
        TargetType::NoTarget,
        SkillEffect::Reload(AmmoKind::Bullets),
        None,
        false,
    )
}

/// The skill that reloads and moves on to the next ammunition.
pub open spec fn swap_ammo_skill() -> SkillInfo {
    SkillInfo::spec_init_with_distance(
        "Swap Ammo",
        Some("b_28.png"),
        TargetType::NoTarget,
        SkillEffect::ReloadAndRotateAmmo,
        None,
        false,
    )
}

/// Every gunslinger skill: the attacks of each class with magnum, ignite
/// and cyclone bullets in turn, then reloading and swapping ammunition.
pub open spec fn spec_instanced_skills(template_names: Seq<Seq<char>>, templates: Seq<SkillInfo>) -> Seq<SkillInfo> {
    ammo_attacks(template_names, templates, GunslingerAmmo::Magnum) + ammo_attacks(
        template_names,
        templates,
        GunslingerAmmo::Ignite,
    ) + ammo_attacks(template_names, templates, GunslingerAmmo::Cyclone) + seq![reload_skill(), swap_ammo_skill()]
}

/// Adds every gunslinger skill to `skills`, all ammunition included (so
/// that help can reach attacks not yet unlocked).
pub fn instance_skills(template_names: &Vec<String>, templates: &Vec<SkillInfo>, skills: &mut SkillsResource)
    requires
        old(skills).wf(),
        attacks_buildable(string_views(template_names@), templates@),
    ensures
        final(skills).wf(),
        final(skills)@ == with_skills(old(skills)@, spec_instanced_skills(string_views(template_names@), templates@)),
{
    let mut all: Vec<SkillInfo> = Vec::new();
    push_ammo_attacks(&mut all, template_names, templates, GunslingerAmmo::Magnum);
    push_ammo_attacks(&mut all, template_names, templates, GunslingerAmmo::Ignite);
    push_ammo_attacks(&mut all, template_names, templates, GunslingerAmmo::Cyclone);
    all.push(SkillInfo::init("Reload", Some("b_45.png"), TargetType::NoTarget, SkillEffect::Reload(AmmoKind::Bullets)));
    all.push(SkillInfo::init("Swap Ammo", Some("b_28.png"), TargetType::NoTarget, SkillEffect::ReloadAndRotateAmmo));
    assert(all@ =~= spec_instanced_skills(string_views(template_names@), templates@));
    skills.add_all(&all);
}

/// A name some skill of `templates` has is first had at some position.
proof fn lemma_first_named_exists(templates: Seq<SkillInfo>, name: Seq<char>)
    requires
        has_named(templates, name),
    ensures
        exists|i: int| is_first_named(templates, i, name),
    decreases templates.len(),
{
    if templates[0].name@ == name {
        assert(is_first_named(templates, 0, name));
    } else {
        let rest = templates.drop_first();
        let j = choose|j: int| 0 <= j < templates.len() && templates[j].name@ == name;
        assert(rest[j - 1] == templates[j]);
        lemma_first_named_exists(rest, name);
        let i = choose|i: int| is_first_named(rest, i, name);
        assert forall|k: int| 0 <= k < i + 1 implies templates[k].name@ != name by {
            if k > 0 {
                assert(templates[k] == rest[k - 1]);
            }
        }
        assert(is_first_named(templates, i + 1, name));
    }
}

/// An attack built for any ammunition is named as asked and keeps its
/// class's target, ammunition, costs, cooldown and replacement: only its
/// image, reach and hit change.
pub proof fn lemma_concrete_skill_keeps_costs(name: Seq<char>, ammo: GunslingerAmmo, templates: Seq<SkillInfo>)
    requires
        spec_base_name(name, ammo) is Some,
        has_named(templates, spec_base_name(name, ammo)->0),
    ensures
        ({
            let base = first_named(templates, spec_base_name(name, ammo)->0);
            let r = spec_concrete_skill(name, ammo, base);
            &&& r.name@ == name
            &&& r.target == base.target
            &&& r.ammo_info == base.ammo_info
            &&& r.exhaustion == base.exhaustion
            &&& r.focus_use == base.focus_use
            &&& r.cooldown == base.cooldown
            &&& r.start_cooldown_spent == base.start_cooldown_spent
            &&& r.alternate == base.alternate
            &&& r.must_be_clear == base.must_be_clear
            &&& r.no_time == base.no_time
        }),
{
    let base_name = spec_base_name(name, ammo)->0;
    lemma_first_named_exists(templates, base_name);
    let i = choose|i: int| is_first_named(templates, i, base_name);
    lemma_first_named(templates, i, base_name);
}

} // verus!
