use vstd::prelude::*;

pub mod pages;

use crate::clash::combat::{FieldEffect, SpawnKind};
use crate::clash::content::gunslinger::{get_all_bases, get_weapon_skills, spec_all_bases, spec_weapon_skill_name, GunslingerAmmo};
use crate::clash::damage::{
    has_option, Damage, DamageOptions, AIMED_SHOT_ADDITIONAL_STRENGTH, HEALTH_REGEN_PER_TICK, STATIC_CHARGE_DAMAGE,
};
use crate::clash::defenses::Defenses;
use crate::clash::skill_resources::{SkillResources, SkillsResource};
use crate::clash::skills::{AmmoKind, SkillEffect, SkillInfo};
use crate::clash::status::StatusKind;
use crate::clash::temperature::{TEMPERATURE_BURN_POINT, TEMPERATURE_DAMAGE_PER_TICK, TEMPERATURE_FREEZE_POINT, TEMPERATURE_PER_DICE_DAMAGE};
use crate::text::{
    concat2, concat3, concat4, decimal_string, decimal_u32, hundredths_string, lines_of, push_line, spec_decimal, spec_hundredths, str_equal,
    string_views,
};

verus! {

/// How many times more a large temperature change moves the temperature.
pub const LARGE_TEMPERATURE_MULTIPLIER: u32 = 4;

/// What heads a help page: nothing, an image with a title, or a title.
#[derive(Clone, Debug)]
pub enum HelpHeader {
    NoHeader,
    Image(String, String),
    Text(String),
}

/// The name help gives the ammunition `kind`.
pub open spec fn ammo_help_name(kind: AmmoKind) -> Seq<char> {
    match kind {
        AmmoKind::Adrenaline => "Adrenaline"@,
        AmmoKind::Bullets => "Bullet(s)"@,
        AmmoKind::Charge => "Elemental Charge"@,
        AmmoKind::Eggs => "Eggs(s)"@,
        AmmoKind::Feathers => "Feather(s)"@,
    }
}

/// The lines of the page shown for the topic `key`, which has no help.
pub open spec fn error_text(key: Seq<char>) -> Seq<Seq<char>> {
    seq![
        "|tab| Internal Help Error:"@,
        ""@,
        "Please file an issue at:"@,
        "https://tinyurl.com/ArenaGS-Issue"@,
        ""@,
        "Include '"@ + key + "' in the description."@,
    ]
}

/// A help page: its header and its lines.
#[derive(Clone, Debug)]
pub struct HelpInfo {
    pub header: HelpHeader,
    pub text: Vec<String>,
}

impl HelpInfo {
    /// A page with `header` and `text`.
    pub fn init(header: HelpHeader, text: Vec<String>) -> (r: HelpInfo)
        ensures
            r.header == header,
            r.text == text,
    {
        HelpInfo { header, text }
    }

    /// A page without a header.
    pub fn no_header(text: Vec<String>) -> (r: HelpInfo)
        ensures
            r.header is NoHeader,
            r.text == text,
    {
        HelpInfo::init(HelpHeader::NoHeader, text)
    }

    /// A page titled `header`.
    pub fn text_header(header: &str, text: Vec<String>) -> (r: HelpInfo)
        ensures
            r.header matches HelpHeader::Text(h) && h@ == header@,
            r.text == text,
    {
        HelpInfo::init(HelpHeader::Text(String::from_str(header)), text)
    }

    /// The name help gives the ammunition `kind`.
    pub fn get_ammo_name(kind: AmmoKind) -> (r: &'static str)
        ensures
            r@ == ammo_help_name(kind),
    {
        match kind {
            AmmoKind::Adrenaline => "Adrenaline",
            AmmoKind::Bullets => "Bullet(s)",
            AmmoKind::Charge => "Elemental Charge",
            AmmoKind::Eggs => "Eggs(s)",
            AmmoKind::Feathers => "Feather(s)",
        }
    }

    /// The page shown for a topic that has no help.
    pub fn get_error(key: &str) -> (r: HelpInfo)
        ensures
            shows(r, None, error_text(key@)),
    {
        let mut text: Vec<String> = Vec::new();
        push_line(&mut text, String::from_str("|tab| Internal Help Error:"));
        push_line(&mut text, String::from_str(""));
        push_line(&mut text, String::from_str("Please file an issue at:"));
        push_line(&mut text, String::from_str("https://tinyurl.com/ArenaGS-Issue"));
        push_line(&mut text, String::from_str(""));
        push_line(&mut text, concat3("Include '", key, "' in the description."));
        assert(string_views(text@) =~= error_text(key@));
        HelpInfo::no_header(text)
    }
}

/// The topic a help word leads to: a few words stand for a broader topic.
pub open spec fn spec_help_topic(word: Seq<char>) -> Seq<char> {
    if word == "Burning"@ || word == "Frozen"@ || word == "temperature"@ || word == "ignite"@ {
        "Temperature"@
    } else if word == "static charge"@ {
        "Static Charge"@
    } else if word == "ticks"@ {
        "Time"@
    } else if word == "Damage"@ || word == "Pierce"@ || word == "piercing"@ {
        "Damage & Defenses"@
    } else if word == "Strength"@ || word == "strength"@ {
        "Strength in Depth"@
    } else if word == "Defenses"@ {
        "Defenses in Depth"@
    } else if word == "armor"@ {
        "Armor"@
    } else {
        word
    }
}

/// Which words lead to which broader topic: the words of temperature
/// (burning, frozen, the word itself and ignite) lead to Temperature; static
/// charge to Static Charge; ticks to Time; damage, pierce and piercing to
/// Damage & Defenses; strength in either case to Strength in Depth; defenses
/// to Defenses in Depth; armor to Armor. Each topic is also reached by its
/// own name and by no other word, and every other word is its own topic.
pub proof fn lemma_help_topic_words(word: Seq<char>)
    ensures
        spec_help_topic(word) == "Temperature"@ <==> (word == "Burning"@ || word == "Frozen"@ || word == "temperature"@ || word == "ignite"@ || word == "Temperature"@),
        spec_help_topic(word) == "Static Charge"@ <==> (word == "static charge"@ || word == "Static Charge"@),
        spec_help_topic(word) == "Time"@ <==> (word == "ticks"@ || word == "Time"@),
        spec_help_topic(word) == "Damage & Defenses"@ <==> (word == "Damage"@ || word == "Pierce"@ || word == "piercing"@ || word == "Damage & Defenses"@),
        spec_help_topic(word) == "Strength in Depth"@ <==> (word == "Strength"@ || word == "strength"@ || word == "Strength in Depth"@),
        spec_help_topic(word) == "Defenses in Depth"@ <==> (word == "Defenses"@ || word == "Defenses in Depth"@),
        spec_help_topic(word) == "Armor"@ <==> (word == "armor"@ || word == "Armor"@),
        (word != "Burning"@ && word != "Frozen"@ && word != "temperature"@ && word != "ignite"@ && word != "static charge"@ && word != "ticks"@ && word != "Damage"@ && word != "Pierce"@ && word != "piercing"@ && word != "Strength"@ && word != "strength"@ && word != "Defenses"@ && word != "armor"@) ==> spec_help_topic(word) == word,
{
    reveal_strlit("Temperature");
    reveal_strlit("Burning");
    reveal_strlit("Frozen");
    reveal_strlit("temperature");
    reveal_strlit("ignite");
    reveal_strlit("Static Charge");
    reveal_strlit("static charge");
    reveal_strlit("Time");
    reveal_strlit("ticks");
    reveal_strlit("Damage & Defenses");
    reveal_strlit("Damage");
    reveal_strlit("Pierce");
    reveal_strlit("piercing");
    reveal_strlit("Strength in Depth");
    reveal_strlit("Strength");
    reveal_strlit("strength");
    reveal_strlit("Defenses in Depth");
    reveal_strlit("Defenses");
    reveal_strlit("Armor");
    reveal_strlit("armor");
    assert("Temperature"@.len() != "Burning"@.len());
    assert("Temperature"@.len() != "Frozen"@.len());
    assert("Temperature"@[0] != "temperature"@[0]);
    assert("Temperature"@.len() != "ignite"@.len());
    assert("Temperature"@.len() != "Static Charge"@.len());
    assert("Temperature"@.len() != "static charge"@.len());
    assert("Temperature"@.len() != "Time"@.len());
    assert("Temperature"@.len() != "ticks"@.len());
    assert("Temperature"@.len() != "Damage & Defenses"@.len());
    assert("Temperature"@.len() != "Damage"@.len());
    assert("Temperature"@.len() != "Pierce"@.len());
    assert("Temperature"@.len() != "piercing"@.len());
    assert("Temperature"@.len() != "Strength in Depth"@.len());
    assert("Temperature"@.len() != "Strength"@.len());
    assert("Temperature"@.len() != "strength"@.len());
    assert("Temperature"@.len() != "Defenses in Depth"@.len());
    assert("Temperature"@.len() != "Defenses"@.len());
    assert("Temperature"@.len() != "Armor"@.len());
    assert("Temperature"@.len() != "armor"@.len());
    assert("Burning"@.len() != "Frozen"@.len());
    assert("Burning"@.len() != "temperature"@.len());
    assert("Burning"@.len() != "ignite"@.len());
    assert("Burning"@.len() != "Static Charge"@.len());
    assert("Burning"@.len() != "static charge"@.len());
    assert("Burning"@.len() != "Time"@.len());
    assert("Burning"@.len() != "ticks"@.len());
    assert("Burning"@.len() != "Damage & Defenses"@.len());
    assert("Burning"@.len() != "Damage"@.len());
    assert("Burning"@.len() != "Pierce"@.len());
    assert("Burning"@.len() != "piercing"@.len());
    assert("Burning"@.len() != "Strength in Depth"@.len());
    assert("Burning"@.len() != "Strength"@.len());
    assert("Burning"@.len() != "strength"@.len());
    assert("Burning"@.len() != "Defenses in Depth"@.len());
    assert("Burning"@.len() != "Defenses"@.len());
    assert("Burning"@.len() != "Armor"@.len());
    assert("Burning"@.len() != "armor"@.len());
    assert("Frozen"@.len() != "temperature"@.len());
    assert("Frozen"@[0] != "ignite"@[0]);
    assert("Frozen"@.len() != "Static Charge"@.len());
    assert("Frozen"@.len() != "static charge"@.len());
    assert("Frozen"@.len() != "Time"@.len());
    assert("Frozen"@.len() != "ticks"@.len());
    assert("Frozen"@.len() != "Damage & Defenses"@.len());
    assert("Frozen"@[0] != "Damage"@[0]);
    assert("Frozen"@[0] != "Pierce"@[0]);
    assert("Frozen"@.len() != "piercing"@.len());
    assert("Frozen"@.len() != "Strength in Depth"@.len());
    assert("Frozen"@.len() != "Strength"@.len());
    assert("Frozen"@.len() != "strength"@.len());
    assert("Frozen"@.len() != "Defenses in Depth"@.len());
    assert("Frozen"@.len() != "Defenses"@.len());
    assert("Frozen"@.len() != "Armor"@.len());
    assert("Frozen"@.len() != "armor"@.len());
    assert("temperature"@.len() != "ignite"@.len());
    assert("temperature"@.len() != "Static Charge"@.len());
    assert("temperature"@.len() != "static charge"@.len());
    assert("temperature"@.len() != "Time"@.len());
    assert("temperature"@.len() != "ticks"@.len());
    assert("temperature"@.len() != "Damage & Defenses"@.len());
    assert("temperature"@.len() != "Damage"@.len());
    assert("temperature"@.len() != "Pierce"@.len());
    assert("temperature"@.len() != "piercing"@.len());
    assert("temperature"@.len() != "Strength in Depth"@.len());
    assert("temperature"@.len() != "Strength"@.len());
    assert("temperature"@.len() != "strength"@.len());
    assert("temperature"@.len() != "Defenses in Depth"@.len());
    assert("temperature"@.len() != "Defenses"@.len());
    assert("temperature"@.len() != "Armor"@.len());
    assert("temperature"@.len() != "armor"@.len());
    assert("ignite"@.len() != "Static Charge"@.len());
    assert("ignite"@.len() != "static charge"@.len());
    assert("ignite"@.len() != "Time"@.len());
    assert("ignite"@.len() != "ticks"@.len());
    assert("ignite"@.len() != "Damage & Defenses"@.len());
    assert("ignite"@[0] != "Damage"@[0]);
    assert("ignite"@[0] != "Pierce"@[0]);
    assert("ignite"@.len() != "piercing"@.len());
    assert("ignite"@.len() != "Strength in Depth"@.len());
    assert("ignite"@.len() != "Strength"@.len());
    assert("ignite"@.len() != "strength"@.len());
    assert("ignite"@.len() != "Defenses in Depth"@.len());
    assert("ignite"@.len() != "Defenses"@.len());
    assert("ignite"@.len() != "Armor"@.len());
    assert("ignite"@.len() != "armor"@.len());
    assert("Static Charge"@[0] != "static charge"@[0]);
    assert("Static Charge"@.len() != "Time"@.len());
    assert("Static Charge"@.len() != "ticks"@.len());
    assert("Static Charge"@.len() != "Damage & Defenses"@.len());
    assert("Static Charge"@.len() != "Damage"@.len());
    assert("Static Charge"@.len() != "Pierce"@.len());
    assert("Static Charge"@.len() != "piercing"@.len());
    assert("Static Charge"@.len() != "Strength in Depth"@.len());
    assert("Static Charge"@.len() != "Strength"@.len());
    assert("Static Charge"@.len() != "strength"@.len());
    assert("Static Charge"@.len() != "Defenses in Depth"@.len());
    assert("Static Charge"@.len() != "Defenses"@.len());
    assert("Static Charge"@.len() != "Armor"@.len());
    assert("Static Charge"@.len() != "armor"@.len());
    assert("static charge"@.len() != "Time"@.len());
    assert("static charge"@.len() != "ticks"@.len());
    assert("static charge"@.len() != "Damage & Defenses"@.len());
    assert("static charge"@.len() != "Damage"@.len());
    assert("static charge"@.len() != "Pierce"@.len());
    assert("static charge"@.len() != "piercing"@.len());
    assert("static charge"@.len() != "Strength in Depth"@.len());
    assert("static charge"@.len() != "Strength"@.len());
    assert("static charge"@.len() != "strength"@.len());
    assert("static charge"@.len() != "Defenses in Depth"@.len());
    assert("static charge"@.len() != "Defenses"@.len());
    assert("static charge"@.len() != "Armor"@.len());
    assert("static charge"@.len() != "armor"@.len());
    assert("Time"@.len() != "ticks"@.len());
    assert("Time"@.len() != "Damage & Defenses"@.len());
    assert("Time"@.len() != "Damage"@.len());
    assert("Time"@.len() != "Pierce"@.len());
    assert("Time"@.len() != "piercing"@.len());
    assert("Time"@.len() != "Strength in Depth"@.len());
    assert("Time"@.len() != "Strength"@.len());
    assert("Time"@.len() != "strength"@.len());
    assert("Time"@.len() != "Defenses in Depth"@.len());
    assert("Time"@.len() != "Defenses"@.len());
    assert("Time"@.len() != "Armor"@.len());
    assert("Time"@.len() != "armor"@.len());
    assert("ticks"@.len() != "Damage & Defenses"@.len());
    assert("ticks"@.len() != "Damage"@.len());
    assert("ticks"@.len() != "Pierce"@.len());
    assert("ticks"@.len() != "piercing"@.len());
    assert("ticks"@.len() != "Strength in Depth"@.len());
    assert("ticks"@.len() != "Strength"@.len());
    assert("ticks"@.len() != "strength"@.len());
    assert("ticks"@.len() != "Defenses in Depth"@.len());
    assert("ticks"@.len() != "Defenses"@.len());
    assert("ticks"@[0] != "Armor"@[0]);
    assert("ticks"@[0] != "armor"@[0]);
    assert("Damage & Defenses"@.len() != "Damage"@.len());
    assert("Damage & Defenses"@.len() != "Pierce"@.len());
    assert("Damage & Defenses"@.len() != "piercing"@.len());
    assert("Damage & Defenses"@[0] != "Strength in Depth"@[0]);
    assert("Damage & Defenses"@.len() != "Strength"@.len());
    assert("Damage & Defenses"@.len() != "strength"@.len());
    assert("Damage & Defenses"@[1] != "Defenses in Depth"@[1]);
    assert("Damage & Defenses"@.len() != "Defenses"@.len());
    assert("Damage & Defenses"@.len() != "Armor"@.len());
    assert("Damage & Defenses"@.len() != "armor"@.len());
    assert("Damage"@[0] != "Pierce"@[0]);
    assert("Damage"@.len() != "piercing"@.len());
    assert("Damage"@.len() != "Strength in Depth"@.len());
    assert("Damage"@.len() != "Strength"@.len());
    assert("Damage"@.len() != "strength"@.len());
    assert("Damage"@.len() != "Defenses in Depth"@.len());
    assert("Damage"@.len() != "Defenses"@.len());
    assert("Damage"@.len() != "Armor"@.len());
    assert("Damage"@.len() != "armor"@.len());
    assert("Pierce"@.len() != "piercing"@.len());
    assert("Pierce"@.len() != "Strength in Depth"@.len());
    assert("Pierce"@.len() != "Strength"@.len());
    assert("Pierce"@.len() != "strength"@.len());
    assert("Pierce"@.len() != "Defenses in Depth"@.len());
    assert("Pierce"@.len() != "Defenses"@.len());
    assert("Pierce"@.len() != "Armor"@.len());
    assert("Pierce"@.len() != "armor"@.len());
    assert("piercing"@.len() != "Strength in Depth"@.len());
    assert("piercing"@[0] != "Strength"@[0]);
    assert("piercing"@[0] != "strength"@[0]);
    assert("piercing"@.len() != "Defenses in Depth"@.len());
    assert("piercing"@[0] != "Defenses"@[0]);
    assert("piercing"@.len() != "Armor"@.len());
    assert("piercing"@.len() != "armor"@.len());
    assert("Strength in Depth"@.len() != "Strength"@.len());
    assert("Strength in Depth"@.len() != "strength"@.len());
    assert("Strength in Depth"@[0] != "Defenses in Depth"@[0]);
    assert("Strength in Depth"@.len() != "Defenses"@.len());
    assert("Strength in Depth"@.len() != "Armor"@.len());
    assert("Strength in Depth"@.len() != "armor"@.len());
    assert("Strength"@[0] != "strength"@[0]);
    assert("Strength"@.len() != "Defenses in Depth"@.len());
    assert("Strength"@[0] != "Defenses"@[0]);
    assert("Strength"@.len() != "Armor"@.len());
    assert("Strength"@.len() != "armor"@.len());
    assert("strength"@.len() != "Defenses in Depth"@.len());
    assert("strength"@[0] != "Defenses"@[0]);
    assert("strength"@.len() != "Armor"@.len());
    assert("strength"@.len() != "armor"@.len());
    assert("Defenses in Depth"@.len() != "Defenses"@.len());
    assert("Defenses in Depth"@.len() != "Armor"@.len());
    assert("Defenses in Depth"@.len() != "armor"@.len());
    assert("Defenses"@.len() != "Armor"@.len());
    assert("Defenses"@.len() != "armor"@.len());
    assert("Armor"@[0] != "armor"@[0]);
}

/// The topic a help word leads to.
pub fn help_topic(word: &str) -> (r: String)
    ensures
        r@ == spec_help_topic(word@),
{
    let topic = if crate::text::str_equal(word, "Burning") || crate::text::str_equal(word, "Frozen") || crate::text::str_equal(
        word,
        "temperature",
    ) || crate::text::str_equal(word, "ignite") {
        "Temperature"
    } else if crate::text::str_equal(word, "static charge") {
        "Static Charge"
    } else if crate::text::str_equal(word, "ticks") {
        "Time"
    } else if crate::text::str_equal(word, "Damage") || crate::text::str_equal(word, "Pierce") || crate::text::str_equal(
        word,
        "piercing",
    ) {
        "Damage & Defenses"
    } else if crate::text::str_equal(word, "Strength") || crate::text::str_equal(word, "strength") {
        "Strength in Depth"
    } else if crate::text::str_equal(word, "Defenses") {
        "Defenses in Depth"
    } else if crate::text::str_equal(word, "armor") {
        "Armor"
    } else {
        word
    };
    String::from_str(topic)
}

/// The topics listed on the top help page.
pub fn top_level_topics() -> (r: Vec<&'static str>)
    ensures
        r@.map_values(|s: &'static str| s@) == seq![
            "Getting Started"@,
            "Damage & Defenses"@,
            "Gunslinger"@,
            "Resources"@,
            "Status Effects"@,
            "Temperature"@,
            "Time"@,
        ],
{
    let r = vec!["Getting Started", "Damage & Defenses", "Gunslinger", "Resources", "Status Effects", "Temperature", "Time"];
    assert(r@.map_values(|s: &'static str| s@) =~= seq![
        "Getting Started"@,
        "Damage & Defenses"@,
        "Gunslinger"@,
        "Resources"@,
        "Status Effects"@,
        "Temperature"@,
        "Time"@,
    ]);
    r
}

/// The name help gives a creature.
pub open spec fn spec_spawn_name(kind: SpawnKind) -> Seq<char> {
    match kind {
        SpawnKind::Player => "Player"@,
        SpawnKind::Bird => "Giant Bird"@,
        SpawnKind::BirdSpawn => "Bird"@,
        SpawnKind::Egg => "Egg"@,
        SpawnKind::WaterElemental => "Water Elemental"@,
        SpawnKind::FireElemental => "Fire Elemental"@,
        SpawnKind::WindElemental => "Wind Elemental"@,
        SpawnKind::EarthElemental => "Earth Elemental"@,
        SpawnKind::Elementalist => "Elementalist"@,
        SpawnKind::SimpleGolem => "Simple Golem"@,
        SpawnKind::ShadowGunSlinger => "Shadow Gunslinger"@,
    }
}

/// The name help gives a creature.
pub fn get_spawn_name(kind: SpawnKind) -> (r: &'static str)
    ensures
        r@ == spec_spawn_name(kind),
{
    match kind {
        SpawnKind::Player => "Player",
        SpawnKind::Bird => "Giant Bird",
        SpawnKind::BirdSpawn => "Bird",
        SpawnKind::Egg => "Egg",
        SpawnKind::WaterElemental => "Water Elemental",
        SpawnKind::FireElemental => "Fire Elemental",
        SpawnKind::WindElemental => "Wind Elemental",
        SpawnKind::EarthElemental => "Earth Elemental",
        SpawnKind::Elementalist => "Elementalist",
        SpawnKind::SimpleGolem => "Simple Golem",
        SpawnKind::ShadowGunSlinger => "Shadow Gunslinger",
    }
}

/// The name help gives a status; the regeneration tick has none.
pub open spec fn spec_status_effect_name(kind: StatusKind) -> Seq<char> {
    match kind {
        StatusKind::Burning => "Burning"@,
        StatusKind::Frozen => "Frozen"@,
        StatusKind::Magnum => "Magnum"@,
        StatusKind::Ignite => "Ignite"@,
        StatusKind::Cyclone => "Cyclone"@,
        StatusKind::StaticCharge => "Static Charge"@,
        StatusKind::Aimed => "Aimed"@,
        StatusKind::Armored => "Armored"@,
        StatusKind::Flying => "Flying"@,
        StatusKind::Regen => "Regen"@,
        _ => ""@,
    }
}

/// The name help gives a status; the regeneration tick is never shown.
pub fn get_status_effect_name(kind: StatusKind) -> (r: &'static str)
    requires
        !(kind is RegenTick),
    ensures
        r@ == spec_status_effect_name(kind),
{
    match kind {
        StatusKind::Burning => "Burning",
        StatusKind::Frozen => "Frozen",
        StatusKind::Magnum => "Magnum",
        StatusKind::Ignite => "Ignite",
        StatusKind::Cyclone => "Cyclone",
        StatusKind::StaticCharge => "Static Charge",
        StatusKind::Aimed => "Aimed",
        StatusKind::Armored => "Armored",
        StatusKind::Flying => "Flying",
        StatusKind::Regen => "Regen",
        _ => "",
    }
}

/// `line` when `shown`, nothing otherwise.
pub open spec fn line_if(shown: bool, line: Seq<char>) -> Seq<Seq<char>> {
    if shown {
        seq![line]
    } else {
        Seq::empty()
    }
}

/// How much a hit of `damage` moves the temperature, when it does.
pub open spec fn temperature_change(damage: Damage) -> int {
    TEMPERATURE_PER_DICE_DAMAGE * damage.amount.dice * if has_option(damage.options, DamageOptions::LARGE_TEMPERATURE_DELTA) {
        LARGE_TEMPERATURE_MULTIPLIER as int
    } else {
        1
    }
}

/// Whether the help lines for `damage` can be written: a temperature change
/// it reports must fit in `u32`.
pub open spec fn damage_reportable(damage: Damage) -> bool {
    has_option(damage.options, DamageOptions::RAISE_TEMPERATURE) || has_option(damage.options, DamageOptions::LOWER_TEMPERATURE)
        ==> temperature_change(damage) <= u32::MAX
}

/// The help line on how a hit of `damage` moves the temperature, if it does.
pub open spec fn spec_temperature_report(damage: Damage) -> Seq<Seq<char>> {
    let raises = has_option(damage.options, DamageOptions::RAISE_TEMPERATURE);
    let lowers = has_option(damage.options, DamageOptions::LOWER_TEMPERATURE);
    line_if(
        raises || lowers,
        (if raises {
            "Raises"@
        } else {
            "Lowers"@
        }) + " [[temperature]] by "@ + spec_decimal(temperature_change(damage)),
    )
}

/// The help lines on knockback and static charge for a hit with `options`.
pub open spec fn spec_charge_report(options: DamageOptions) -> Seq<Seq<char>> {
    line_if(has_option(options, DamageOptions::KNOCKBACK), "Knocks target back."@) + line_if(
        has_option(options, DamageOptions::ADD_CHARGE_STATUS),
        "Applies [[static charge]]."@,
    ) + line_if(
        has_option(options, DamageOptions::CONSUMES_CHARGE_DMG),
        "Consumes [[static charge]] to do "@ + spec_decimal(STATIC_CHARGE_DAMAGE as int)
            + " strength additional [[piercing]] damage."@,
    ) + line_if(
        has_option(options, DamageOptions::CONSUMES_CHARGE_KNOCKBACK),
        "Consumes [[static charge]] to knockback target."@,
    )
}

/// The help lines on piercing, triple and aimed shots for a hit with `options`.
pub open spec fn spec_shot_report(options: DamageOptions) -> Seq<Seq<char>> {
    line_if(has_option(options, DamageOptions::PIERCE_DEFENSES), "[[Pierce]] target's [[Armor]] and [[Dodge]]."@)
        + line_if(has_option(options, DamageOptions::TRIPLE_SHOT), "Applies three instances of damage"@) + line_if(
        has_option(options, DamageOptions::AIMED_SHOT),
        "Grants '[[Aimed]]' effect."@,
    )
}

/// The help lines describing a hit of `damage`.
pub open spec fn spec_damage_report(damage: Damage) -> Seq<Seq<char>> {
    seq!["[[Strength]]: "@ + spec_decimal(damage.amount.dice as int)] + spec_temperature_report(damage)
        + spec_charge_report(damage.options) + spec_shot_report(damage.options)
}

/// Appends `line` to `details` when `shown`.
fn push_line_if(details: &mut Vec<String>, shown: bool, line: String)
    ensures
        string_views(final(details)@) == string_views(old(details)@) + line_if(shown, line@),
{
    if shown {
        push_line(details, line);
    } else {
        assert(string_views(old(details)@) + line_if(shown, line@) =~= string_views(old(details)@));
    }
}

/// Whether `options` has `flag` set.
fn option_set(options: DamageOptions, flag: u32) -> (r: bool)
    ensures
        r == has_option(options, flag),
{
    options.contains(DamageOptions::from_bits(flag))
}

/// Appends the help line on how a hit of `damage` moves the temperature.
fn report_temperature(details: &mut Vec<String>, damage: &Damage)
    requires
        damage_reportable(*damage),
    ensures
        string_views(final(details)@) == string_views(old(details)@) + spec_temperature_report(*damage),
{
    let opt = damage.options;
    let raises = option_set(opt, DamageOptions::RAISE_TEMPERATURE);
    let lowers = option_set(opt, DamageOptions::LOWER_TEMPERATURE);
    if raises || lowers {
        let dice = damage.dice();
        let large = option_set(opt, DamageOptions::LARGE_TEMPERATURE_DELTA);
        let multiplier: u32 = if large {
            LARGE_TEMPERATURE_MULTIPLIER
        } else {
            1
        };
        let per_dice = TEMPERATURE_PER_DICE_DAMAGE as u32;
        assert(per_dice == 5);
        assert(temperature_change(*damage) == 5 * dice * multiplier);
        assert(per_dice * dice * multiplier == 5 * dice * multiplier) by (nonlinear_arith)
            requires
                per_dice == 5,
        ;
        assert(per_dice * dice <= per_dice * dice * multiplier) by (nonlinear_arith)
            requires
                multiplier >= 1,
        ;
        let change = per_dice * dice * multiplier;
        let direction = if raises {
            "Raises"
        } else {
            "Lowers"
        };
        push_line_if(details, true, concat3(direction, " [[temperature]] by ", decimal_u32(change).as_str()));
    } else {
        push_line_if(details, false, String::new());
    }
}

/// Appends the help lines on knockback and static charge for `options`.
fn report_charge(details: &mut Vec<String>, options: DamageOptions)
    ensures
        string_views(final(details)@) == string_views(old(details)@) + spec_charge_report(options),
{
    let ghost start = string_views(details@);
    push_line_if(details, option_set(options, DamageOptions::KNOCKBACK), String::from_str("Knocks target back."));
    push_line_if(details, option_set(options, DamageOptions::ADD_CHARGE_STATUS), String::from_str("Applies [[static charge]]."));
    push_line_if(
        details,
        option_set(options, DamageOptions::CONSUMES_CHARGE_DMG),
        concat3("Consumes [[static charge]] to do ", decimal_u32(STATIC_CHARGE_DAMAGE).as_str(), " strength additional [[piercing]] damage."),
    );
    push_line_if(
        details,
        option_set(options, DamageOptions::CONSUMES_CHARGE_KNOCKBACK),
        String::from_str("Consumes [[static charge]] to knockback target."),
    );
    assert(string_views(details@) =~= start + spec_charge_report(options));
}

/// Appends the help lines on piercing, triple and aimed shots for `options`.
fn report_shot(details: &mut Vec<String>, options: DamageOptions)
    ensures
        string_views(final(details)@) == string_views(old(details)@) + spec_shot_report(options),
{
    let ghost start = string_views(details@);
    push_line_if(
        details,
        option_set(options, DamageOptions::PIERCE_DEFENSES),
        String::from_str("[[Pierce]] target's [[Armor]] and [[Dodge]]."),
    );
    push_line_if(details, option_set(options, DamageOptions::TRIPLE_SHOT), String::from_str("Applies three instances of damage"));
    push_line_if(details, option_set(options, DamageOptions::AIMED_SHOT), String::from_str("Grants '[[Aimed]]' effect."));
    assert(string_views(details@) =~= start + spec_shot_report(options));
}

/// Appends the help lines describing a hit of `damage` to `details`.
pub fn report_damage(details: &mut Vec<String>, damage: &Damage)
    requires
        damage_reportable(*damage),
    ensures
        string_views(final(details)@) == string_views(old(details)@) + spec_damage_report(*damage),
{
    let ghost start = string_views(details@);
    push_line(details, concat2("[[Strength]]: ", decimal_u32(damage.dice()).as_str()));
    report_temperature(details, damage);
    report_charge(details, damage.options);
    report_shot(details, damage.options);
    assert(string_views(details@) =~= start + spec_damage_report(*damage));
}

/// Whether the help lines for a skill with `effect` can be written: every
/// hit's temperature change fits in `u32`, and no buff is a regeneration
/// tick.
pub open spec fn effect_reportable(effect: SkillEffect) -> bool
    decreases effect,
{
    match effect {
        SkillEffect::RangedAttack(damage, _) => damage_reportable(damage),
        SkillEffect::MeleeAttack(damage, _) => damage_reportable(damage),
        SkillEffect::ConeAttack(damage, _, _) => damage_reportable(damage),
        SkillEffect::ChargeAttack(damage, _) => damage_reportable(damage),
        SkillEffect::Field(FieldEffect::Damage(damage, _), _) => damage_reportable(damage),
        SkillEffect::Field(FieldEffect::SustainedDamage(damage, _), _) => damage_reportable(damage),
        SkillEffect::MoveAndShoot(damage, _, _) => damage_reportable(damage),
        SkillEffect::Orb(damage, _, _, _) => damage_reportable(damage),
        SkillEffect::Buff(kind, _) => !(kind is RegenTick),
        SkillEffect::Sequence(first, second) => effect_reportable(*first) && effect_reportable(*second),
        _ => true,
    }
}

/// The help lines describing what a skill with `effect` does.
pub open spec fn spec_effect_report(effect: SkillEffect) -> Seq<Seq<char>>
    decreases effect,
{
    match effect {
        SkillEffect::NoEffect => Seq::empty(),
        SkillEffect::Move => seq!["Move to Location"@],
        SkillEffect::RangedAttack(damage, _) => seq!["Ranged Attack"@] + spec_damage_report(damage),
        SkillEffect::MeleeAttack(damage, _) => seq!["Melee Attack"@] + spec_damage_report(damage),
        SkillEffect::ConeAttack(damage, _, size) => seq!["Cone of Width "@ + spec_decimal(size as int)] + spec_damage_report(damage),
        SkillEffect::ChargeAttack(damage, _) => seq!["Move towards location, attacking first character in path"@] + spec_damage_report(
            damage,
        ),
        SkillEffect::Reload(kind) => seq!["Reload all "@ + ammo_help_name(kind)],
        SkillEffect::ReloadSome(kind, amount) => seq!["Reload "@ + spec_decimal(amount as int) + " "@ + ammo_help_name(kind)],
        SkillEffect::ReloadSomeRandom(kind, amount) => seq![
            "Reload randomly between 2 and "@ + spec_decimal(amount as int) + " "@ + ammo_help_name(kind),
        ],
        SkillEffect::Field(FieldEffect::Damage(damage, _), _) => seq!["Damage after 200 [[ticks]]"@] + spec_damage_report(damage),
        SkillEffect::Field(FieldEffect::Spawn(kind), _) => seq!["Summon a "@ + spec_spawn_name(kind) + " after 100 [[ticks]]"@],
        SkillEffect::Field(FieldEffect::SustainedDamage(damage, duration), _) => seq![
            "Damage every 100 [[ticks]] with "@ + spec_decimal(duration as int) + " duration"@,
        ] + spec_damage_report(damage),
        SkillEffect::MoveAndShoot(damage, range, _) => seq![
            "Move to target and shoot nearest enemy"@ + (match range {
                Some(r) => " within range "@ + spec_decimal(r as int),
                None => Seq::empty(),
            }) + "."@,
        ] + spec_damage_report(damage),
        SkillEffect::ReloadAndRotateAmmo => seq!["Reload Bullets and rotates to next ammo type."@],
        SkillEffect::Buff(kind, duration) => seq![
            "Applies "@ + spec_status_effect_name(kind) + " effect for "@ + spec_decimal(duration as int) + " [[ticks]]."@,
        ],
        SkillEffect::Orb(damage, _, _, _) => seq!["Fire a slow moving a orb along a path."@] + spec_damage_report(damage),
        SkillEffect::Spawn(kind) => seq!["Summon a "@ + spec_spawn_name(kind) + "."@],
        SkillEffect::SpawnReplace(kind) => seq!["Summon a "@ + spec_spawn_name(kind) + " replacing itself."@],
        SkillEffect::Sequence(first, second) => spec_effect_report(*first) + seq!["|tab|Then"@] + spec_effect_report(*second),
    }
}

/// Appends `line` and then the lines for `damage`.
fn report_attack(details: &mut Vec<String>, line: String, damage: &Damage)
    requires
        damage_reportable(*damage),
    ensures
        string_views(final(details)@) == string_views(old(details)@) + seq![line@] + spec_damage_report(*damage),
{
    push_line(details, line);
    report_damage(details, damage);
}

/// Appends the help lines describing what a skill with `effect` does to
/// `details`.
pub fn report_skill_effect(details: &mut Vec<String>, effect: &SkillEffect)
    requires
        effect_reportable(*effect),
    ensures
        string_views(final(details)@) == string_views(old(details)@) + spec_effect_report(*effect),
    decreases effect,
{
    let ghost start = string_views(details@);
    match effect {
        SkillEffect::NoEffect => {
            assert(start + spec_effect_report(*effect) =~= start);
        },
        SkillEffect::Move => push_line(details, String::from_str("Move to Location")),
        SkillEffect::RangedAttack(damage, _) => report_attack(details, String::from_str("Ranged Attack"), damage),
        SkillEffect::MeleeAttack(damage, _) => report_attack(details, String::from_str("Melee Attack"), damage),
        SkillEffect::ConeAttack(damage, _, size) => report_attack(details, concat2("Cone of Width ", decimal_u32(*size).as_str()), damage),
        SkillEffect::ChargeAttack(damage, _) => report_attack(
            details,
            String::from_str("Move towards location, attacking first character in path"),
            damage,
        ),
        SkillEffect::Reload(kind) => push_line(details, concat2("Reload all ", HelpInfo::get_ammo_name(*kind))),
        SkillEffect::ReloadSome(kind, amount) => push_line(details, concat4("Reload ", decimal_u32(*amount).as_str(), " ", HelpInfo::get_ammo_name(*kind))),
        SkillEffect::ReloadSomeRandom(kind, amount) => push_line(
            details,
            concat4("Reload randomly between 2 and ", decimal_u32(*amount).as_str(), " ", HelpInfo::get_ammo_name(*kind)),
        ),
        SkillEffect::Field(field, _) => match field {
            FieldEffect::Damage(damage, _) => report_attack(details, String::from_str("Damage after 200 [[ticks]]"), damage),
            FieldEffect::Spawn(kind) => push_line(details, concat3("Summon a ", get_spawn_name(*kind), " after 100 [[ticks]]")),
            FieldEffect::SustainedDamage(damage, duration) => report_attack(
                details,
                concat3("Damage every 100 [[ticks]] with ", decimal_u32(*duration).as_str(), " duration"),
                damage,
            ),
        },
        SkillEffect::MoveAndShoot(damage, shoot_range, _) => {
            let range_text = match shoot_range {
                Some(r) => concat2(" within range ", decimal_u32(*r).as_str()),
                None => String::new(),
            };
            report_attack(details, concat3("Move to target and shoot nearest enemy", range_text.as_str(), "."), damage);
        },
        SkillEffect::ReloadAndRotateAmmo => push_line(details, String::from_str("Reload Bullets and rotates to next ammo type.")),
        SkillEffect::Buff(kind, duration) => {
            let line = concat4("Applies ", get_status_effect_name(*kind), " effect for ", decimal_string(*duration).as_str());
            let mut full = line;
            full.append(" [[ticks]].");
            push_line(details, full);
        },
        SkillEffect::Orb(damage, _, _, _) => report_attack(details, String::from_str("Fire a slow moving a orb along a path."), damage),
        SkillEffect::Spawn(kind) => push_line(details, concat3("Summon a ", get_spawn_name(*kind), ".")),
        SkillEffect::SpawnReplace(kind) => push_line(details, concat3("Summon a ", get_spawn_name(*kind), " replacing itself.")),
        SkillEffect::Sequence(first, second) => {
            report_skill_effect(details, first);
            push_line(details, String::from_str("|tab|Then"));
            report_skill_effect(details, second);
            assert(string_views(details@) =~= start + spec_effect_report(*effect));
        },
    }
}

/// Whether `help` has the title `title` (no header for `None`) and the
/// lines `text`.
pub open spec fn shows(help: HelpInfo, title: Option<Seq<char>>, text: Seq<Seq<char>>) -> bool {
    &&& match title {
        Some(t) => help.header matches HelpHeader::Text(h) && h@ == t,
        None => help.header is NoHeader,
    }
    &&& string_views(help.text@) == text
}

/// Each of `names` written as a help link.
pub open spec fn links(names: Seq<Seq<char>>) -> Seq<Seq<char>> {
    names.map_values(|n: Seq<char>| "[["@ + n + "]]"@)
}

/// Appends each of `names`, written as a help link, to `details`.
fn push_links(details: &mut Vec<String>, names: &Vec<String>)
    ensures
        string_views(final(details)@) == string_views(old(details)@) + links(string_views(names@)),
{
    let ghost start = string_views(details@);
    let mut i: usize = 0;
    while i < names.len()
        invariant
            i <= names.len(),
            string_views(details@) == start + links(string_views(names@.subrange(0, i as int))),
        decreases names.len() - i,
    {
        push_line(details, concat3("[[", names[i].as_str(), "]]"));
        assert(links(string_views(names@.subrange(0, i + 1))) =~= links(string_views(names@.subrange(0, i as int))).push(
            "[["@ + names@[i as int]@ + "]]"@,
        ));
        i += 1;
    }
    assert(names@.subrange(0, names.len() as int) =~= names@);
}

/// The lines of the top help page: a link to each top topic.
pub open spec fn top_level_text() -> Seq<Seq<char>> {
    links(
        seq![
            "Getting Started"@,
            "Damage & Defenses"@,
            "Gunslinger"@,
            "Resources"@,
            "Status Effects"@,
            "Temperature"@,
            "Time"@,
        ],
    )
}

fn top_level_lines() -> (r: Vec<String>)
    ensures
        string_views(r@) == top_level_text(),
{
    let topics = top_level_topics();
    assert(topics@.map_values(|s: &str| s@) =~= topics@.map_values(|s: &'static str| s@));
    let names = lines_of(topics);
    let mut r: Vec<String> = Vec::new();
    push_links(&mut r, &names);
    assert(string_views(r@) =~= top_level_text());
    r
}

/// Links to the gunslinger's attacks with `ammo`.
pub open spec fn weapon_skill_links(ammo: GunslingerAmmo) -> Seq<Seq<char>> {
    links(spec_all_bases().map_values(|t: Seq<char>| spec_weapon_skill_name(t, ammo).unwrap()))
}

/// Appends links to the gunslinger's attacks with `ammo` to `details`.
fn push_weapon_skill_links(details: &mut Vec<String>, ammo: GunslingerAmmo)
    ensures
        string_views(final(details)@) == string_views(old(details)@) + weapon_skill_links(ammo),
{
    let bases = get_all_bases();
    assert forall|k: int| 0 <= k < bases@.len() implies (#[trigger] spec_weapon_skill_name(bases@[k]@, ammo)) is Some by {
        assert(string_views(bases@)[k] == bases@[k]@);
        assert(bases@[k]@ == spec_all_bases()[k]);
        assert(string_views(bases@).len() == 4);
        if k == 0 {
            assert(bases@[k]@ == "Snap Shot"@);
        } else if k == 1 {
            assert(bases@[k]@ == "Aimed Shot"@);
        } else if k == 2 {
            assert(bases@[k]@ == "Triple Shot"@);
        } else {
            assert(bases@[k]@ == "Quick Shot"@);
        }
    }
    let names = get_weapon_skills(&bases, ammo);
    push_links(details, &names);
    assert(string_views(names@) =~= spec_all_bases().map_values(|t: Seq<char>| spec_weapon_skill_name(t, ammo).unwrap())) by {
        assert forall|k: int| 0 <= k < names@.len() implies string_views(names@)[k] == spec_weapon_skill_name(
            spec_all_bases()[k],
            ammo,
        ).unwrap() by {
            assert(string_views(bases@)[k] == bases@[k]@);
            assert(Some(names@[k]@) == spec_weapon_skill_name(bases@[k]@, ammo));
        }
    }
}

/// The lines of the page on the bullets `ammo`.
pub open spec fn ammo_page_text(ammo: GunslingerAmmo) -> Seq<Seq<char>> {
    (match ammo {
        GunslingerAmmo::Magnum => pages::magnum_bullets_intro(),
        GunslingerAmmo::Ignite => pages::ignite_bullets_intro(),
        GunslingerAmmo::Cyclone => pages::cyclone_bullets_intro(),
    }) + weapon_skill_links(ammo)
}

/// The title of the page on the bullets `ammo`.
pub open spec fn ammo_page_title(ammo: GunslingerAmmo) -> Seq<char> {
    match ammo {
        GunslingerAmmo::Magnum => "Magnum Bullets"@,
        GunslingerAmmo::Ignite => "Ignite Bullets"@,
        GunslingerAmmo::Cyclone => "Cyclone Bullets"@,
    }
}

/// The page on the bullets `ammo`: what they do, then links to the attacks
/// that fire them.
pub fn ammo_page(ammo: GunslingerAmmo) -> (r: HelpInfo)
    ensures
        shows(r, Some(ammo_page_title(ammo)), ammo_page_text(ammo)),
{
    let (title, mut text) = match ammo {
        GunslingerAmmo::Magnum => ("Magnum Bullets", pages::magnum_bullets_intro_lines()),
        GunslingerAmmo::Ignite => ("Ignite Bullets", pages::ignite_bullets_intro_lines()),
        GunslingerAmmo::Cyclone => ("Cyclone Bullets", pages::cyclone_bullets_intro_lines()),
    };
    push_weapon_skill_links(&mut text, ammo);
    HelpInfo::text_header(title, text)
}

/// The lines of the page on resources, with its numbers as given.
pub open spec fn resources_text(
    max_exhaustion: Seq<char>,
    exhaustion_per_100_ticks: Seq<char>,
    exhaustion_cost_per_move: Seq<char>,
    focus_per_100_ticks: Seq<char>,
) -> Seq<Seq<char>> {
    seq![
        "Many skills in ArenaGS require one or more resources to be used."@,
        ""@,
        "The most common include:"@,
        ""@,
        "- Exhaustion: How physically taxing an action is."@,
        "|tab|- Starts at 0, with a maximum of "@ + max_exhaustion + ". Reduces by "@ + exhaustion_per_100_ticks
            + " every 100 [[ticks]."@,
        "|tab|- Standard movement costs "@ + exhaustion_cost_per_move + " exhaustion."@,
        ""@,
        "- Focus: How much concentration and grit a character can spent in an effort."@,
        "|tab|- Starts at the maximum of 1.0 and increases by "@ + focus_per_100_ticks + " every turn."@,
        ""@,
        "- Adrenaline: Some skills need the surge of excitement and will one gains as the battle continues."@,
        "|tab|- Starts at 0 and increases every turn based upon actions."@,
        ""@,
        "- Bullets: Firearms can only hold so many rounds, and will require reloading when nearing empty."@,
        "|tab|- Some skills can fire more than one bullet."@,
    ]
}

/// The page on resources. Its numbers are given written out: the caller
/// holds the exhaustion and focus rates.
pub fn resources_page(
    max_exhaustion: &str,
    exhaustion_per_100_ticks: &str,
    exhaustion_cost_per_move: &str,
    focus_per_100_ticks: &str,
) -> (r: HelpInfo)
    ensures
        shows(
            r,
            Some("Resources"@),
            resources_text(max_exhaustion@, exhaustion_per_100_ticks@, exhaustion_cost_per_move@, focus_per_100_ticks@),
        ),
{
    let mut text = lines_of(
        vec![
            "Many skills in ArenaGS require one or more resources to be used.",
            "",
            "The most common include:",
            "",
            "- Exhaustion: How physically taxing an action is.",
        ],
    );
    let first = concat4("|tab|- Starts at 0, with a maximum of ", max_exhaustion, ". Reduces by ", exhaustion_per_100_ticks);
    push_line(&mut text, concat2(first.as_str(), " every 100 [[ticks]."));
    push_line(&mut text, concat3("|tab|- Standard movement costs ", exhaustion_cost_per_move, " exhaustion."));
    push_line(&mut text, String::from_str(""));
    push_line(&mut text, String::from_str("- Focus: How much concentration and grit a character can spent in an effort."));
    push_line(&mut text, concat3("|tab|- Starts at the maximum of 1.0 and increases by ", focus_per_100_ticks, " every turn."));
    push_line(&mut text, String::from_str(""));
    push_line(
        &mut text,
        String::from_str("- Adrenaline: Some skills need the surge of excitement and will one gains as the battle continues."),
    );
    push_line(&mut text, String::from_str("|tab|- Starts at 0 and increases every turn based upon actions."));
    push_line(&mut text, String::from_str(""));
    push_line(
        &mut text,
        String::from_str("- Bullets: Firearms can only hold so many rounds, and will require reloading when nearing empty."),
    );
    push_line(&mut text, String::from_str("|tab|- Some skills can fire more than one bullet."));
    assert(string_views(text@) =~= resources_text(
        max_exhaustion@,
        exhaustion_per_100_ticks@,
        exhaustion_cost_per_move@,
        focus_per_100_ticks@,
    ));
    HelpInfo::text_header("Resources", text)
}

/// Whether help has a page for the status `status`: the regeneration tick
/// and the kinds kept for tests have none.
pub open spec fn status_has_page(status: StatusKind) -> bool {
    !(status is RegenTick) && !(status is TestStatus) && !(status is TestTrait)
}

/// The title and lines of the help page on the status `status`.
pub open spec fn spec_status_page(status: StatusKind) -> (Option<Seq<char>>, Seq<Seq<char>>) {
    match status {
        StatusKind::Burning => (
            Some(spec_status_effect_name(status)),
            seq![
                "Burning: Take "@ + spec_decimal(TEMPERATURE_DAMAGE_PER_TICK as int)
                    + " [[piercing]] damage every turn while [[temperature]] is above "@ + spec_decimal(
                    TEMPERATURE_BURN_POINT as int,
                ) + "."@,
            ],
        ),
        StatusKind::Frozen => (
            Some(spec_status_effect_name(status)),
            seq![
                "Frozen: Movements take 150% longer while [[temperature]] is below "@ + spec_decimal(
                    TEMPERATURE_FREEZE_POINT as int,
                ) + "."@,
            ],
        ),
        StatusKind::Magnum => (Some(ammo_page_title(GunslingerAmmo::Magnum)), ammo_page_text(GunslingerAmmo::Magnum)),
        StatusKind::Ignite => (Some(ammo_page_title(GunslingerAmmo::Ignite)), ammo_page_text(GunslingerAmmo::Ignite)),
        StatusKind::Cyclone => (Some(ammo_page_title(GunslingerAmmo::Cyclone)), ammo_page_text(GunslingerAmmo::Cyclone)),
        StatusKind::StaticCharge => (Some("Static Charge"@), pages::static_charge_text()),
        StatusKind::Aimed => (
            Some(spec_status_effect_name(status)),
            seq![
                "Focused on nailing the next shot. Next attack [[strength]] increased by "@ + spec_decimal(
                    AIMED_SHOT_ADDITIONAL_STRENGTH as int,
                ) + "."@,
            ],
        ),
        StatusKind::Armored => (
            Some(spec_status_effect_name(status)),
            seq![
                "Well prepared for the next blow. "@ + spec_decimal(AIMED_SHOT_ADDITIONAL_STRENGTH as int)
                    + " Additional [[armor]] through next attack."@,
            ],
        ),
        StatusKind::Flying => (Some(spec_status_effect_name(status)), seq!["High above the battleground, unreachable for now."@]),
        StatusKind::Regen => (
            Some(spec_status_effect_name(status)),
            seq![
                "Rapidly healing injuries. A "@ + spec_decimal(HEALTH_REGEN_PER_TICK as int)
                    + " [[strength]] heal every turn."@,
            ],
        ),
        _ => (None, Seq::empty()),
    }
}

/// A page titled `title` with the single line `line`.
fn one_line_page(title: &str, line: String) -> (r: HelpInfo)
    ensures
        shows(r, Some(title@), seq![line@]),
{
    let mut text: Vec<String> = Vec::new();
    push_line(&mut text, line);
    assert(string_views(text@) =~= seq![line@]);
    HelpInfo::text_header(title, text)
}

impl HelpInfo {
    /// The help page on the status `status`.
    pub fn find_status(status: StatusKind) -> (r: HelpInfo)
        requires
            status_has_page(status),
        ensures
            shows(r, spec_status_page(status).0, spec_status_page(status).1),
    {
        match status {
            StatusKind::Burning => {
                let first = concat3(
                    "Burning: Take ",
                    decimal_u32(TEMPERATURE_DAMAGE_PER_TICK).as_str(),
                    " [[piercing]] damage every turn while [[temperature]] is above ",
                );
                one_line_page(
                    get_status_effect_name(status),
                    concat3(first.as_str(), decimal_string(TEMPERATURE_BURN_POINT).as_str(), "."),
                )
            },
            StatusKind::Frozen => one_line_page(
                get_status_effect_name(status),
                concat3(
                    "Frozen: Movements take 150% longer while [[temperature]] is below ",
                    decimal_string(TEMPERATURE_FREEZE_POINT).as_str(),
                    ".",
                ),
            ),
            StatusKind::Magnum => ammo_page(GunslingerAmmo::Magnum),
            StatusKind::Ignite => ammo_page(GunslingerAmmo::Ignite),
            StatusKind::Cyclone => ammo_page(GunslingerAmmo::Cyclone),
            StatusKind::StaticCharge => HelpInfo::text_header("Static Charge", pages::static_charge_lines()),
            StatusKind::Aimed => one_line_page(
                get_status_effect_name(status),
                concat3(
                    "Focused on nailing the next shot. Next attack [[strength]] increased by ",
                    decimal_u32(AIMED_SHOT_ADDITIONAL_STRENGTH).as_str(),
                    ".",
                ),
            ),
            StatusKind::Armored => one_line_page(
                get_status_effect_name(status),
                concat3(
                    "Well prepared for the next blow. ",
                    decimal_u32(AIMED_SHOT_ADDITIONAL_STRENGTH).as_str(),
                    " Additional [[armor]] through next attack.",
                ),
            ),
            StatusKind::Flying => one_line_page(
                get_status_effect_name(status),
                String::from_str("High above the battleground, unreachable for now."),
            ),
            _ => one_line_page(
                get_status_effect_name(status),
                concat3("Rapidly healing injuries. A ", decimal_u32(HEALTH_REGEN_PER_TICK).as_str(), " [[strength]] heal every turn."),
            ),
        }
    }
}


/// The title and lines of the help page on `topic`; `None` where help has
/// no page of its own for it (skills, and resources, whose numbers the
/// caller holds).
pub open spec fn spec_page(topic: Seq<char>) -> Option<(Option<Seq<char>>, Seq<Seq<char>>)> {
    if topic == "Top Level Help"@ {
        Some((Some("Help"@), top_level_text()))
    } else if topic == "Getting Started"@ {
        Some((Some("Getting Started"@), pages::getting_started_text()))
    } else if topic == "Damage & Defenses"@ {
        Some((Some("Damage & Defenses"@), pages::damage_defenses_text()))
    } else if topic == "Strength in Depth"@ {
        Some((Some("Strength in Depth"@), pages::strength_in_depth_text()))
    } else if topic == "Defenses in Depth"@ {
        Some((Some("Defenses in Depth"@), pages::defenses_in_depth_text()))
    } else if topic == "Health"@ {
        Some((None, pages::health_text()))
    } else if topic == "Absorb"@ {
        Some((None, pages::absorb_text()))
    } else if topic == "Dodge"@ {
        Some((None, pages::dodge_text()))
    } else if topic == "Armor"@ {
        Some((None, pages::armor_text()))
    } else if topic == "Exhaustion"@ {
        Some((None, pages::exhaustion_text()))
    } else if topic == "Focus"@ {
        Some((None, pages::focus_text()))
    } else if topic == "Adrenaline"@ {
        Some((None, pages::adrenaline_text()))
    } else if topic == "Bullets"@ {
        Some((None, pages::bullets_text()))
    } else if topic == "Defense Example"@ {
        Some((Some("Defense Example"@), pages::defense_example_text()))
    } else if topic == "Gunslinger"@ {
        Some((Some("Gunslinger"@), pages::gunslinger_text()))
    } else if topic == "Magnum Bullets"@ {
        Some((Some(ammo_page_title(GunslingerAmmo::Magnum)), ammo_page_text(GunslingerAmmo::Magnum)))
    } else if topic == "Ignite Bullets"@ {
        Some((Some(ammo_page_title(GunslingerAmmo::Ignite)), ammo_page_text(GunslingerAmmo::Ignite)))
    } else if topic == "Cyclone Bullets"@ {
        Some((Some(ammo_page_title(GunslingerAmmo::Cyclone)), ammo_page_text(GunslingerAmmo::Cyclone)))
    } else if topic == "Static Charge"@ {
        Some((Some("Static Charge"@), pages::static_charge_text()))
    } else if topic == "Status Effects"@ {
        Some((Some("Status Effects"@), pages::status_effects_text()))
    } else if topic == "Temperature"@ {
        Some((Some("Temperature"@), pages::temperature_text()))
    } else if topic == "Time"@ {
        Some((Some("Time"@), pages::time_text()))
    } else if topic == "Aimed"@ {
        Some(spec_status_page(StatusKind::Aimed))
    } else {
        None
    }
}

/// The topics listed on the top help page.
pub open spec fn top_level_names() -> Seq<Seq<char>> {
    seq!["Getting Started"@, "Damage & Defenses"@, "Gunslinger"@, "Resources"@, "Status Effects"@, "Temperature"@, "Time"@]
}

/// Every topic a help word is taken to has somewhere to go: a word that
/// stands for a broader topic leads to a page of its own, and each topic
/// linked from the top page leads to a page of its own or to the resources
/// page.
pub proof fn lemma_topics_have_pages(word: Seq<char>)
    ensures
        spec_help_topic(word) != word ==> spec_page(spec_help_topic(word)) is Some,
        top_level_text() == links(top_level_names()),
        forall|k: int|
            0 <= k < top_level_names().len() ==> spec_page(spec_help_topic(#[trigger] top_level_names()[k])) is Some
                || spec_help_topic(top_level_names()[k]) == "Resources"@,
{
    reveal_strlit("Top Level Help");
    reveal_strlit("Getting Started");
    reveal_strlit("Damage & Defenses");
    reveal_strlit("Strength in Depth");
    reveal_strlit("Defenses in Depth");
    reveal_strlit("Health");
    reveal_strlit("Absorb");
    reveal_strlit("Dodge");
    reveal_strlit("Armor");
    reveal_strlit("Exhaustion");
    reveal_strlit("Focus");
    reveal_strlit("Adrenaline");
    reveal_strlit("Bullets");
    reveal_strlit("Defense Example");
    reveal_strlit("Gunslinger");
    reveal_strlit("Magnum Bullets");
    reveal_strlit("Ignite Bullets");
    reveal_strlit("Cyclone Bullets");
    reveal_strlit("Static Charge");
    reveal_strlit("Status Effects");
    reveal_strlit("Temperature");
    reveal_strlit("Time");
    reveal_strlit("Aimed");
    reveal_strlit("Burning");
    reveal_strlit("Frozen");
    reveal_strlit("temperature");
    reveal_strlit("ignite");
    reveal_strlit("static charge");
    reveal_strlit("ticks");
    reveal_strlit("Damage");
    reveal_strlit("Pierce");
    reveal_strlit("piercing");
    reveal_strlit("Strength");
    reveal_strlit("strength");
    reveal_strlit("Defenses");
    reveal_strlit("armor");
    reveal_strlit("Resources");
    assert("Top Level Help"@.len() != "Getting Started"@.len());
    assert("Top Level Help"@.len() != "Damage & Defenses"@.len());
    assert("Top Level Help"@.len() != "Strength in Depth"@.len());
    assert("Top Level Help"@.len() != "Defenses in Depth"@.len());
    assert("Top Level Help"@.len() != "Health"@.len());
    assert("Top Level Help"@.len() != "Absorb"@.len());
    assert("Top Level Help"@.len() != "Dodge"@.len());
    assert("Top Level Help"@.len() != "Armor"@.len());
    assert("Top Level Help"@.len() != "Exhaustion"@.len());
    assert("Top Level Help"@.len() != "Focus"@.len());
    assert("Top Level Help"@.len() != "Adrenaline"@.len());
    assert("Top Level Help"@.len() != "Bullets"@.len());
    assert("Top Level Help"@.len() != "Defense Example"@.len());
    assert("Top Level Help"@.len() != "Gunslinger"@.len());
    assert("Top Level Help"@[0] != "Magnum Bullets"@[0]);
    assert("Top Level Help"@[0] != "Ignite Bullets"@[0]);
    assert("Top Level Help"@.len() != "Cyclone Bullets"@.len());
    assert("Top Level Help"@.len() != "Static Charge"@.len());
    assert("Top Level Help"@[0] != "Status Effects"@[0]);
    assert("Top Level Help"@.len() != "Temperature"@.len());
    assert("Top Level Help"@.len() != "Time"@.len());
    assert("Top Level Help"@.len() != "Aimed"@.len());
    assert("Top Level Help"@.len() != "Burning"@.len());
    assert("Top Level Help"@.len() != "Frozen"@.len());
    assert("Top Level Help"@.len() != "temperature"@.len());
    assert("Top Level Help"@.len() != "ignite"@.len());
    assert("Top Level Help"@.len() != "static charge"@.len());
    assert("Top Level Help"@.len() != "ticks"@.len());
    assert("Top Level Help"@.len() != "Damage"@.len());
    assert("Top Level Help"@.len() != "Pierce"@.len());
    assert("Top Level Help"@.len() != "piercing"@.len());
    assert("Top Level Help"@.len() != "Strength"@.len());
    assert("Top Level Help"@.len() != "strength"@.len());
    assert("Top Level Help"@.len() != "Defenses"@.len());
    assert("Top Level Help"@.len() != "armor"@.len());
    assert("Top Level Help"@.len() != "Resources"@.len());
    assert("Getting Started"@.len() != "Damage & Defenses"@.len());
    assert("Getting Started"@.len() != "Strength in Depth"@.len());
    assert("Getting Started"@.len() != "Defenses in Depth"@.len());
    assert("Getting Started"@.len() != "Health"@.len());
    assert("Getting Started"@.len() != "Absorb"@.len());
    assert("Getting Started"@.len() != "Dodge"@.len());
    assert("Getting Started"@.len() != "Armor"@.len());
    assert("Getting Started"@.len() != "Exhaustion"@.len());
    assert("Getting Started"@.len() != "Focus"@.len());
    assert("Getting Started"@.len() != "Adrenaline"@.len());
    assert("Getting Started"@.len() != "Bullets"@.len());
    assert("Getting Started"@[0] != "Defense Example"@[0]);
    assert("Getting Started"@.len() != "Gunslinger"@.len());
    assert("Getting Started"@.len() != "Magnum Bullets"@.len());
    assert("Getting Started"@.len() != "Ignite Bullets"@.len());
    assert("Getting Started"@[0] != "Cyclone Bullets"@[0]);
    assert("Getting Started"@.len() != "Static Charge"@.len());
    assert("Getting Started"@.len() != "Status Effects"@.len());
    assert("Getting Started"@.len() != "Temperature"@.len());
    assert("Getting Started"@.len() != "Time"@.len());
    assert("Getting Started"@.len() != "Aimed"@.len());
    assert("Getting Started"@.len() != "Burning"@.len());
    assert("Getting Started"@.len() != "Frozen"@.len());
    assert("Getting Started"@.len() != "temperature"@.len());
    assert("Getting Started"@.len() != "ignite"@.len());
    assert("Getting Started"@.len() != "static charge"@.len());
    assert("Getting Started"@.len() != "ticks"@.len());
    assert("Getting Started"@.len() != "Damage"@.len());
    assert("Getting Started"@.len() != "Pierce"@.len());
    assert("Getting Started"@.len() != "piercing"@.len());
    assert("Getting Started"@.len() != "Strength"@.len());
    assert("Getting Started"@.len() != "strength"@.len());
    assert("Getting Started"@.len() != "Defenses"@.len());
    assert("Getting Started"@.len() != "armor"@.len());
    assert("Getting Started"@.len() != "Resources"@.len());
    assert("Damage & Defenses"@[0] != "Strength in Depth"@[0]);
    assert("Damage & Defenses"@[1] != "Defenses in Depth"@[1]);
    assert("Damage & Defenses"@.len() != "Health"@.len());
    assert("Damage & Defenses"@.len() != "Absorb"@.len());
    assert("Damage & Defenses"@.len() != "Dodge"@.len());
    assert("Damage & Defenses"@.len() != "Armor"@.len());
    assert("Damage & Defenses"@.len() != "Exhaustion"@.len());
    assert("Damage & Defenses"@.len() != "Focus"@.len());
    assert("Damage & Defenses"@.len() != "Adrenaline"@.len());
    assert("Damage & Defenses"@.len() != "Bullets"@.len());
    assert("Damage & Defenses"@.len() != "Defense Example"@.len());
    assert("Damage & Defenses"@.len() != "Gunslinger"@.len());
    assert("Damage & Defenses"@.len() != "Magnum Bullets"@.len());
    assert("Damage & Defenses"@.len() != "Ignite Bullets"@.len());
    assert("Damage & Defenses"@.len() != "Cyclone Bullets"@.len());
    assert("Damage & Defenses"@.len() != "Static Charge"@.len());
    assert("Damage & Defenses"@.len() != "Status Effects"@.len());
    assert("Damage & Defenses"@.len() != "Temperature"@.len());
    assert("Damage & Defenses"@.len() != "Time"@.len());
    assert("Damage & Defenses"@.len() != "Aimed"@.len());
    assert("Damage & Defenses"@.len() != "Burning"@.len());
    assert("Damage & Defenses"@.len() != "Frozen"@.len());
    assert("Damage & Defenses"@.len() != "temperature"@.len());
    assert("Damage & Defenses"@.len() != "ignite"@.len());
    assert("Damage & Defenses"@.len() != "static charge"@.len());
    assert("Damage & Defenses"@.len() != "ticks"@.len());
    assert("Damage & Defenses"@.len() != "Damage"@.len());
    assert("Damage & Defenses"@.len() != "Pierce"@.len());
    assert("Damage & Defenses"@.len() != "piercing"@.len());
    assert("Damage & Defenses"@.len() != "Strength"@.len());
    assert("Damage & Defenses"@.len() != "strength"@.len());
    assert("Damage & Defenses"@.len() != "Defenses"@.len());
    assert("Damage & Defenses"@.len() != "armor"@.len());
    assert("Damage & Defenses"@.len() != "Resources"@.len());
    assert("Strength in Depth"@[0] != "Defenses in Depth"@[0]);
    assert("Strength in Depth"@.len() != "Health"@.len());
    assert("Strength in Depth"@.len() != "Absorb"@.len());
    assert("Strength in Depth"@.len() != "Dodge"@.len());
    assert("Strength in Depth"@.len() != "Armor"@.len());
    assert("Strength in Depth"@.len() != "Exhaustion"@.len());
    assert("Strength in Depth"@.len() != "Focus"@.len());
    assert("Strength in Depth"@.len() != "Adrenaline"@.len());
    assert("Strength in Depth"@.len() != "Bullets"@.len());
    assert("Strength in Depth"@.len() != "Defense Example"@.len());
    assert("Strength in Depth"@.len() != "Gunslinger"@.len());
    assert("Strength in Depth"@.len() != "Magnum Bullets"@.len());
    assert("Strength in Depth"@.len() != "Ignite Bullets"@.len());
    assert("Strength in Depth"@.len() != "Cyclone Bullets"@.len());
    assert("Strength in Depth"@.len() != "Static Charge"@.len());
    assert("Strength in Depth"@.len() != "Status Effects"@.len());
    assert("Strength in Depth"@.len() != "Temperature"@.len());
    assert("Strength in Depth"@.len() != "Time"@.len());
    assert("Strength in Depth"@.len() != "Aimed"@.len());
    assert("Strength in Depth"@.len() != "Burning"@.len());
    assert("Strength in Depth"@.len() != "Frozen"@.len());
    assert("Strength in Depth"@.len() != "temperature"@.len());
    assert("Strength in Depth"@.len() != "ignite"@.len());
    assert("Strength in Depth"@.len() != "static charge"@.len());
    assert("Strength in Depth"@.len() != "ticks"@.len());
    assert("Strength in Depth"@.len() != "Damage"@.len());
    assert("Strength in Depth"@.len() != "Pierce"@.len());
    assert("Strength in Depth"@.len() != "piercing"@.len());
    assert("Strength in Depth"@.len() != "Strength"@.len());
    assert("Strength in Depth"@.len() != "strength"@.len());
    assert("Strength in Depth"@.len() != "Defenses"@.len());
    assert("Strength in Depth"@.len() != "armor"@.len());
    assert("Strength in Depth"@.len() != "Resources"@.len());
    assert("Defenses in Depth"@.len() != "Health"@.len());
    assert("Defenses in Depth"@.len() != "Absorb"@.len());
    assert("Defenses in Depth"@.len() != "Dodge"@.len());
    assert("Defenses in Depth"@.len() != "Armor"@.len());
    assert("Defenses in Depth"@.len() != "Exhaustion"@.len());
    assert("Defenses in Depth"@.len() != "Focus"@.len());
    assert("Defenses in Depth"@.len() != "Adrenaline"@.len());
    assert("Defenses in Depth"@.len() != "Bullets"@.len());
    assert("Defenses in Depth"@.len() != "Defense Example"@.len());
    assert("Defenses in Depth"@.len() != "Gunslinger"@.len());
    assert("Defenses in Depth"@.len() != "Magnum Bullets"@.len());
    assert("Defenses in Depth"@.len() != "Ignite Bullets"@.len());
    assert("Defenses in Depth"@.len() != "Cyclone Bullets"@.len());
    assert("Defenses in Depth"@.len() != "Static Charge"@.len());
    assert("Defenses in Depth"@.len() != "Status Effects"@.len());
    assert("Defenses in Depth"@.len() != "Temperature"@.len());
    assert("Defenses in Depth"@.len() != "Time"@.len());
    assert("Defenses in Depth"@.len() != "Aimed"@.len());
    assert("Defenses in Depth"@.len() != "Burning"@.len());
    assert("Defenses in Depth"@.len() != "Frozen"@.len());
    assert("Defenses in Depth"@.len() != "temperature"@.len());
    assert("Defenses in Depth"@.len() != "ignite"@.len());
    assert("Defenses in Depth"@.len() != "static charge"@.len());
    assert("Defenses in Depth"@.len() != "ticks"@.len());
    assert("Defenses in Depth"@.len() != "Damage"@.len());
    assert("Defenses in Depth"@.len() != "Pierce"@.len());
    assert("Defenses in Depth"@.len() != "piercing"@.len());
    assert("Defenses in Depth"@.len() != "Strength"@.len());
    assert("Defenses in Depth"@.len() != "strength"@.len());
    assert("Defenses in Depth"@.len() != "Defenses"@.len());
    assert("Defenses in Depth"@.len() != "armor"@.len());
    assert("Defenses in Depth"@.len() != "Resources"@.len());
    assert("Health"@[0] != "Absorb"@[0]);
    assert("Health"@.len() != "Dodge"@.len());
    assert("Health"@.len() != "Armor"@.len());
    assert("Health"@.len() != "Exhaustion"@.len());
    assert("Health"@.len() != "Focus"@.len());
    assert("Health"@.len() != "Adrenaline"@.len());
    assert("Health"@.len() != "Bullets"@.len());
    assert("Health"@.len() != "Defense Example"@.len());
    assert("Health"@.len() != "Gunslinger"@.len());
    assert("Health"@.len() != "Magnum Bullets"@.len());
    assert("Health"@.len() != "Ignite Bullets"@.len());
    assert("Health"@.len() != "Cyclone Bullets"@.len());
    assert("Health"@.len() != "Static Charge"@.len());
    assert("Health"@.len() != "Status Effects"@.len());
    assert("Health"@.len() != "Temperature"@.len());
    assert("Health"@.len() != "Time"@.len());
    assert("Health"@.len() != "Aimed"@.len());
    assert("Health"@.len() != "Burning"@.len());
    assert("Health"@[0] != "Frozen"@[0]);
    assert("Health"@.len() != "temperature"@.len());
    assert("Health"@[0] != "ignite"@[0]);
    assert("Health"@.len() != "static charge"@.len());
    assert("Health"@.len() != "ticks"@.len());
    assert("Health"@[0] != "Damage"@[0]);
    assert("Health"@[0] != "Pierce"@[0]);
    assert("Health"@.len() != "piercing"@.len());
    assert("Health"@.len() != "Strength"@.len());
    assert("Health"@.len() != "strength"@.len());
    assert("Health"@.len() != "Defenses"@.len());
    assert("Health"@.len() != "armor"@.len());
    assert("Health"@.len() != "Resources"@.len());
    assert("Absorb"@.len() != "Dodge"@.len());
    assert("Absorb"@.len() != "Armor"@.len());
    assert("Absorb"@.len() != "Exhaustion"@.len());
    assert("Absorb"@.len() != "Focus"@.len());
    assert("Absorb"@.len() != "Adrenaline"@.len());
    assert("Absorb"@.len() != "Bullets"@.len());
    assert("Absorb"@.len() != "Defense Example"@.len());
    assert("Absorb"@.len() != "Gunslinger"@.len());
    assert("Absorb"@.len() != "Magnum Bullets"@.len());
    assert("Absorb"@.len() != "Ignite Bullets"@.len());
    assert("Absorb"@.len() != "Cyclone Bullets"@.len());
    assert("Absorb"@.len() != "Static Charge"@.len());
    assert("Absorb"@.len() != "Status Effects"@.len());
    assert("Absorb"@.len() != "Temperature"@.len());
    assert("Absorb"@.len() != "Time"@.len());
    assert("Absorb"@.len() != "Aimed"@.len());
    assert("Absorb"@.len() != "Burning"@.len());
    assert("Absorb"@[0] != "Frozen"@[0]);
    assert("Absorb"@.len() != "temperature"@.len());
    assert("Absorb"@[0] != "ignite"@[0]);
    assert("Absorb"@.len() != "static charge"@.len());
    assert("Absorb"@.len() != "ticks"@.len());
    assert("Absorb"@[0] != "Damage"@[0]);
    assert("Absorb"@[0] != "Pierce"@[0]);
    assert("Absorb"@.len() != "piercing"@.len());
    assert("Absorb"@.len() != "Strength"@.len());
    assert("Absorb"@.len() != "strength"@.len());
    assert("Absorb"@.len() != "Defenses"@.len());
    assert("Absorb"@.len() != "armor"@.len());
    assert("Absorb"@.len() != "Resources"@.len());
    assert("Dodge"@[0] != "Armor"@[0]);
    assert("Dodge"@.len() != "Exhaustion"@.len());
    assert("Dodge"@[0] != "Focus"@[0]);
    assert("Dodge"@.len() != "Adrenaline"@.len());
    assert("Dodge"@.len() != "Bullets"@.len());
    assert("Dodge"@.len() != "Defense Example"@.len());
    assert("Dodge"@.len() != "Gunslinger"@.len());
    assert("Dodge"@.len() != "Magnum Bullets"@.len());
    assert("Dodge"@.len() != "Ignite Bullets"@.len());
    assert("Dodge"@.len() != "Cyclone Bullets"@.len());
    assert("Dodge"@.len() != "Static Charge"@.len());
    assert("Dodge"@.len() != "Status Effects"@.len());
    assert("Dodge"@.len() != "Temperature"@.len());
    assert("Dodge"@.len() != "Time"@.len());
    assert("Dodge"@[0] != "Aimed"@[0]);
    assert("Dodge"@.len() != "Burning"@.len());
    assert("Dodge"@.len() != "Frozen"@.len());
    assert("Dodge"@.len() != "temperature"@.len());
    assert("Dodge"@.len() != "ignite"@.len());
    assert("Dodge"@.len() != "static charge"@.len());
    assert("Dodge"@[0] != "ticks"@[0]);
    assert("Dodge"@.len() != "Damage"@.len());
    assert("Dodge"@.len() != "Pierce"@.len());
    assert("Dodge"@.len() != "piercing"@.len());
    assert("Dodge"@.len() != "Strength"@.len());
    assert("Dodge"@.len() != "strength"@.len());
    assert("Dodge"@.len() != "Defenses"@.len());
    assert("Dodge"@[0] != "armor"@[0]);
    assert("Dodge"@.len() != "Resources"@.len());
    assert("Armor"@.len() != "Exhaustion"@.len());
    assert("Armor"@[0] != "Focus"@[0]);
    assert("Armor"@.len() != "Adrenaline"@.len());
    assert("Armor"@.len() != "Bullets"@.len());
    assert("Armor"@.len() != "Defense Example"@.len());
    assert("Armor"@.len() != "Gunslinger"@.len());
    assert("Armor"@.len() != "Magnum Bullets"@.len());
    assert("Armor"@.len() != "Ignite Bullets"@.len());
    assert("Armor"@.len() != "Cyclone Bullets"@.len());
    assert("Armor"@.len() != "Static Charge"@.len());
    assert("Armor"@.len() != "Status Effects"@.len());
    assert("Armor"@.len() != "Temperature"@.len());
    assert("Armor"@.len() != "Time"@.len());
    assert("Armor"@[1] != "Aimed"@[1]);
    assert("Armor"@.len() != "Burning"@.len());
    assert("Armor"@.len() != "Frozen"@.len());
    assert("Armor"@.len() != "temperature"@.len());
    assert("Armor"@.len() != "ignite"@.len());
    assert("Armor"@.len() != "static charge"@.len());
    assert("Armor"@[0] != "ticks"@[0]);
    assert("Armor"@.len() != "Damage"@.len());
    assert("Armor"@.len() != "Pierce"@.len());
    assert("Armor"@.len() != "piercing"@.len());
    assert("Armor"@.len() != "Strength"@.len());
    assert("Armor"@.len() != "strength"@.len());
    assert("Armor"@.len() != "Defenses"@.len());
    assert("Armor"@[0] != "armor"@[0]);
    assert("Armor"@.len() != "Resources"@.len());
    assert("Exhaustion"@.len() != "Focus"@.len());
    assert("Exhaustion"@[0] != "Adrenaline"@[0]);
    assert("Exhaustion"@.len() != "Bullets"@.len());
    assert("Exhaustion"@.len() != "Defense Example"@.len());
    assert("Exhaustion"@[0] != "Gunslinger"@[0]);
    assert("Exhaustion"@.len() != "Magnum Bullets"@.len());
    assert("Exhaustion"@.len() != "Ignite Bullets"@.len());
    assert("Exhaustion"@.len() != "Cyclone Bullets"@.len());
    assert("Exhaustion"@.len() != "Static Charge"@.len());
    assert("Exhaustion"@.len() != "Status Effects"@.len());
    assert("Exhaustion"@.len() != "Temperature"@.len());
    assert("Exhaustion"@.len() != "Time"@.len());
    assert("Exhaustion"@.len() != "Aimed"@.len());
    assert("Exhaustion"@.len() != "Burning"@.len());
    assert("Exhaustion"@.len() != "Frozen"@.len());
    assert("Exhaustion"@.len() != "temperature"@.len());
    assert("Exhaustion"@.len() != "ignite"@.len());
    assert("Exhaustion"@.len() != "static charge"@.len());
    assert("Exhaustion"@.len() != "ticks"@.len());
    assert("Exhaustion"@.len() != "Damage"@.len());
    assert("Exhaustion"@.len() != "Pierce"@.len());
    assert("Exhaustion"@.len() != "piercing"@.len());
    assert("Exhaustion"@.len() != "Strength"@.len());
    assert("Exhaustion"@.len() != "strength"@.len());
    assert("Exhaustion"@.len() != "Defenses"@.len());
    assert("Exhaustion"@.len() != "armor"@.len());
    assert("Exhaustion"@.len() != "Resources"@.len());
    assert("Focus"@.len() != "Adrenaline"@.len());
    assert("Focus"@.len() != "Bullets"@.len());
    assert("Focus"@.len() != "Defense Example"@.len());
    assert("Focus"@.len() != "Gunslinger"@.len());
    assert("Focus"@.len() != "Magnum Bullets"@.len());
    assert("Focus"@.len() != "Ignite Bullets"@.len());
    assert("Focus"@.len() != "Cyclone Bullets"@.len());
    assert("Focus"@.len() != "Static Charge"@.len());
    assert("Focus"@.len() != "Status Effects"@.len());
    assert("Focus"@.len() != "Temperature"@.len());
    assert("Focus"@.len() != "Time"@.len());
    assert("Focus"@[0] != "Aimed"@[0]);
    assert("Focus"@.len() != "Burning"@.len());
    assert("Focus"@.len() != "Frozen"@.len());
    assert("Focus"@.len() != "temperature"@.len());
    assert("Focus"@.len() != "ignite"@.len());
    assert("Focus"@.len() != "static charge"@.len());
    assert("Focus"@[0] != "ticks"@[0]);
    assert("Focus"@.len() != "Damage"@.len());
    assert("Focus"@.len() != "Pierce"@.len());
    assert("Focus"@.len() != "piercing"@.len());
    assert("Focus"@.len() != "Strength"@.len());
    assert("Focus"@.len() != "strength"@.len());
    assert("Focus"@.len() != "Defenses"@.len());
    assert("Focus"@[0] != "armor"@[0]);
    assert("Focus"@.len() != "Resources"@.len());
    assert("Adrenaline"@.len() != "Bullets"@.len());
    assert("Adrenaline"@.len() != "Defense Example"@.len());
    assert("Adrenaline"@[0] != "Gunslinger"@[0]);
    assert("Adrenaline"@.len() != "Magnum Bullets"@.len());
    assert("Adrenaline"@.len() != "Ignite Bullets"@.len());
    assert("Adrenaline"@.len() != "Cyclone Bullets"@.len());
    assert("Adrenaline"@.len() != "Static Charge"@.len());
    assert("Adrenaline"@.len() != "Status Effects"@.len());
    assert("Adrenaline"@.len() != "Temperature"@.len());
    assert("Adrenaline"@.len() != "Time"@.len());
    assert("Adrenaline"@.len() != "Aimed"@.len());
    assert("Adrenaline"@.len() != "Burning"@.len());
    assert("Adrenaline"@.len() != "Frozen"@.len());
    assert("Adrenaline"@.len() != "temperature"@.len());
    assert("Adrenaline"@.len() != "ignite"@.len());
    assert("Adrenaline"@.len() != "static charge"@.len());
    assert("Adrenaline"@.len() != "ticks"@.len());
    assert("Adrenaline"@.len() != "Damage"@.len());
    assert("Adrenaline"@.len() != "Pierce"@.len());
    assert("Adrenaline"@.len() != "piercing"@.len());
    assert("Adrenaline"@.len() != "Strength"@.len());
    assert("Adrenaline"@.len() != "strength"@.len());
    assert("Adrenaline"@.len() != "Defenses"@.len());
    assert("Adrenaline"@.len() != "armor"@.len());
    assert("Adrenaline"@.len() != "Resources"@.len());
    assert("Bullets"@.len() != "Defense Example"@.len());
    assert("Bullets"@.len() != "Gunslinger"@.len());
    assert("Bullets"@.len() != "Magnum Bullets"@.len());
    assert("Bullets"@.len() != "Ignite Bullets"@.len());
    assert("Bullets"@.len() != "Cyclone Bullets"@.len());
    assert("Bullets"@.len() != "Static Charge"@.len());
    assert("Bullets"@.len() != "Status Effects"@.len());
    assert("Bullets"@.len() != "Temperature"@.len());
    assert("Bullets"@.len() != "Time"@.len());
    assert("Bullets"@.len() != "Aimed"@.len());
    assert("Bullets"@[2] != "Burning"@[2]);
    assert("Bullets"@.len() != "Frozen"@.len());
    assert("Bullets"@.len() != "temperature"@.len());
    assert("Bullets"@.len() != "ignite"@.len());
    assert("Bullets"@.len() != "static charge"@.len());
    assert("Bullets"@.len() != "ticks"@.len());
    assert("Bullets"@.len() != "Damage"@.len());
    assert("Bullets"@.len() != "Pierce"@.len());
    assert("Bullets"@.len() != "piercing"@.len());
    assert("Bullets"@.len() != "Strength"@.len());
    assert("Bullets"@.len() != "strength"@.len());
    assert("Bullets"@.len() != "Defenses"@.len());
    assert("Bullets"@.len() != "armor"@.len());
    assert("Bullets"@.len() != "Resources"@.len());
    assert("Defense Example"@.len() != "Gunslinger"@.len());
    assert("Defense Example"@.len() != "Magnum Bullets"@.len());
    assert("Defense Example"@.len() != "Ignite Bullets"@.len());
    assert("Defense Example"@[0] != "Cyclone Bullets"@[0]);
    assert("Defense Example"@.len() != "Static Charge"@.len());
    assert("Defense Example"@.len() != "Status Effects"@.len());
    assert("Defense Example"@.len() != "Temperature"@.len());
    assert("Defense Example"@.len() != "Time"@.len());
    assert("Defense Example"@.len() != "Aimed"@.len());
    assert("Defense Example"@.len() != "Burning"@.len());
    assert("Defense Example"@.len() != "Frozen"@.len());
    assert("Defense Example"@.len() != "temperature"@.len());
    assert("Defense Example"@.len() != "ignite"@.len());
    assert("Defense Example"@.len() != "static charge"@.len());
    assert("Defense Example"@.len() != "ticks"@.len());
    assert("Defense Example"@.len() != "Damage"@.len());
    assert("Defense Example"@.len() != "Pierce"@.len());
    assert("Defense Example"@.len() != "piercing"@.len());
    assert("Defense Example"@.len() != "Strength"@.len());
    assert("Defense Example"@.len() != "strength"@.len());
    assert("Defense Example"@.len() != "Defenses"@.len());
    assert("Defense Example"@.len() != "armor"@.len());
    assert("Defense Example"@.len() != "Resources"@.len());
    assert("Gunslinger"@.len() != "Magnum Bullets"@.len());
    assert("Gunslinger"@.len() != "Ignite Bullets"@.len());
    assert("Gunslinger"@.len() != "Cyclone Bullets"@.len());
    assert("Gunslinger"@.len() != "Static Charge"@.len());
    assert("Gunslinger"@.len() != "Status Effects"@.len());
    assert("Gunslinger"@.len() != "Temperature"@.len());
    assert("Gunslinger"@.len() != "Time"@.len());
    assert("Gunslinger"@.len() != "Aimed"@.len());
    assert("Gunslinger"@.len() != "Burning"@.len());
    assert("Gunslinger"@.len() != "Frozen"@.len());
    assert("Gunslinger"@.len() != "temperature"@.len());
    assert("Gunslinger"@.len() != "ignite"@.len());
    assert("Gunslinger"@.len() != "static charge"@.len());
    assert("Gunslinger"@.len() != "ticks"@.len());
    assert("Gunslinger"@.len() != "Damage"@.len());
    assert("Gunslinger"@.len() != "Pierce"@.len());
    assert("Gunslinger"@.len() != "piercing"@.len());
    assert("Gunslinger"@.len() != "Strength"@.len());
    assert("Gunslinger"@.len() != "strength"@.len());
    assert("Gunslinger"@.len() != "Defenses"@.len());
    assert("Gunslinger"@.len() != "armor"@.len());
    assert("Gunslinger"@.len() != "Resources"@.len());
    assert("Magnum Bullets"@[0] != "Ignite Bullets"@[0]);
    assert("Magnum Bullets"@.len() != "Cyclone Bullets"@.len());
    assert("Magnum Bullets"@.len() != "Static Charge"@.len());
    assert("Magnum Bullets"@[0] != "Status Effects"@[0]);
    assert("Magnum Bullets"@.len() != "Temperature"@.len());
    assert("Magnum Bullets"@.len() != "Time"@.len());
    assert("Magnum Bullets"@.len() != "Aimed"@.len());
    assert("Magnum Bullets"@.len() != "Burning"@.len());
    assert("Magnum Bullets"@.len() != "Frozen"@.len());
    assert("Magnum Bullets"@.len() != "temperature"@.len());
    assert("Magnum Bullets"@.len() != "ignite"@.len());
    assert("Magnum Bullets"@.len() != "static charge"@.len());
    assert("Magnum Bullets"@.len() != "ticks"@.len());
    assert("Magnum Bullets"@.len() != "Damage"@.len());
    assert("Magnum Bullets"@.len() != "Pierce"@.len());
    assert("Magnum Bullets"@.len() != "piercing"@.len());
    assert("Magnum Bullets"@.len() != "Strength"@.len());
    assert("Magnum Bullets"@.len() != "strength"@.len());
    assert("Magnum Bullets"@.len() != "Defenses"@.len());
    assert("Magnum Bullets"@.len() != "armor"@.len());
    assert("Magnum Bullets"@.len() != "Resources"@.len());
    assert("Ignite Bullets"@.len() != "Cyclone Bullets"@.len());
    assert("Ignite Bullets"@.len() != "Static Charge"@.len());
    assert("Ignite Bullets"@[0] != "Status Effects"@[0]);
    assert("Ignite Bullets"@.len() != "Temperature"@.len());
    assert("Ignite Bullets"@.len() != "Time"@.len());
    assert("Ignite Bullets"@.len() != "Aimed"@.len());
    assert("Ignite Bullets"@.len() != "Burning"@.len());
    assert("Ignite Bullets"@.len() != "Frozen"@.len());
    assert("Ignite Bullets"@.len() != "temperature"@.len());
    assert("Ignite Bullets"@.len() != "ignite"@.len());
    assert("Ignite Bullets"@.len() != "static charge"@.len());
    assert("Ignite Bullets"@.len() != "ticks"@.len());
    assert("Ignite Bullets"@.len() != "Damage"@.len());
    assert("Ignite Bullets"@.len() != "Pierce"@.len());
    assert("Ignite Bullets"@.len() != "piercing"@.len());
    assert("Ignite Bullets"@.len() != "Strength"@.len());
    assert("Ignite Bullets"@.len() != "strength"@.len());
    assert("Ignite Bullets"@.len() != "Defenses"@.len());
    assert("Ignite Bullets"@.len() != "armor"@.len());
    assert("Ignite Bullets"@.len() != "Resources"@.len());
    assert("Cyclone Bullets"@.len() != "Static Charge"@.len());
    assert("Cyclone Bullets"@.len() != "Status Effects"@.len());
    assert("Cyclone Bullets"@.len() != "Temperature"@.len());
    assert("Cyclone Bullets"@.len() != "Time"@.len());
    assert("Cyclone Bullets"@.len() != "Aimed"@.len());
    assert("Cyclone Bullets"@.len() != "Burning"@.len());
    assert("Cyclone Bullets"@.len() != "Frozen"@.len());
    assert("Cyclone Bullets"@.len() != "temperature"@.len());
    assert("Cyclone Bullets"@.len() != "ignite"@.len());
    assert("Cyclone Bullets"@.len() != "static charge"@.len());
    assert("Cyclone Bullets"@.len() != "ticks"@.len());
    assert("Cyclone Bullets"@.len() != "Damage"@.len());
    assert("Cyclone Bullets"@.len() != "Pierce"@.len());
    assert("Cyclone Bullets"@.len() != "piercing"@.len());
    assert("Cyclone Bullets"@.len() != "Strength"@.len());
    assert("Cyclone Bullets"@.len() != "strength"@.len());
    assert("Cyclone Bullets"@.len() != "Defenses"@.len());
    assert("Cyclone Bullets"@.len() != "armor"@.len());
    assert("Cyclone Bullets"@.len() != "Resources"@.len());
    assert("Static Charge"@.len() != "Status Effects"@.len());
    assert("Static Charge"@.len() != "Temperature"@.len());
    assert("Static Charge"@.len() != "Time"@.len());
    assert("Static Charge"@.len() != "Aimed"@.len());
    assert("Static Charge"@.len() != "Burning"@.len());
    assert("Static Charge"@.len() != "Frozen"@.len());
    assert("Static Charge"@.len() != "temperature"@.len());
    assert("Static Charge"@.len() != "ignite"@.len());
    assert("Static Charge"@[0] != "static charge"@[0]);
    assert("Static Charge"@.len() != "ticks"@.len());
    assert("Static Charge"@.len() != "Damage"@.len());
    assert("Static Charge"@.len() != "Pierce"@.len());
    assert("Static Charge"@.len() != "piercing"@.len());
    assert("Static Charge"@.len() != "Strength"@.len());
    assert("Static Charge"@.len() != "strength"@.len());
    assert("Static Charge"@.len() != "Defenses"@.len());
    assert("Static Charge"@.len() != "armor"@.len());
    assert("Static Charge"@.len() != "Resources"@.len());
    assert("Status Effects"@.len() != "Temperature"@.len());
    assert("Status Effects"@.len() != "Time"@.len());
    assert("Status Effects"@.len() != "Aimed"@.len());
    assert("Status Effects"@.len() != "Burning"@.len());
    assert("Status Effects"@.len() != "Frozen"@.len());
    assert("Status Effects"@.len() != "temperature"@.len());
    assert("Status Effects"@.len() != "ignite"@.len());
    assert("Status Effects"@.len() != "static charge"@.len());
    assert("Status Effects"@.len() != "ticks"@.len());
    assert("Status Effects"@.len() != "Damage"@.len());
    assert("Status Effects"@.len() != "Pierce"@.len());
    assert("Status Effects"@.len() != "piercing"@.len());
    assert("Status Effects"@.len() != "Strength"@.len());
    assert("Status Effects"@.len() != "strength"@.len());
    assert("Status Effects"@.len() != "Defenses"@.len());
    assert("Status Effects"@.len() != "armor"@.len());
    assert("Status Effects"@.len() != "Resources"@.len());
    assert("Temperature"@.len() != "Time"@.len());
    assert("Temperature"@.len() != "Aimed"@.len());
    assert("Temperature"@.len() != "Burning"@.len());
    assert("Temperature"@.len() != "Frozen"@.len());
    assert("Temperature"@[0] != "temperature"@[0]);
    assert("Temperature"@.len() != "ignite"@.len());
    assert("Temperature"@.len() != "static charge"@.len());
    assert("Temperature"@.len() != "ticks"@.len());
    assert("Temperature"@.len() != "Damage"@.len());
    assert("Temperature"@.len() != "Pierce"@.len());
    assert("Temperature"@.len() != "piercing"@.len());
    assert("Temperature"@.len() != "Strength"@.len());
    assert("Temperature"@.len() != "strength"@.len());
    assert("Temperature"@.len() != "Defenses"@.len());
    assert("Temperature"@.len() != "armor"@.len());
    assert("Temperature"@.len() != "Resources"@.len());
    assert("Time"@.len() != "Aimed"@.len());
    assert("Time"@.len() != "Burning"@.len());
    assert("Time"@.len() != "Frozen"@.len());
    assert("Time"@.len() != "temperature"@.len());
    assert("Time"@.len() != "ignite"@.len());
    assert("Time"@.len() != "static charge"@.len());
    assert("Time"@.len() != "ticks"@.len());
    assert("Time"@.len() != "Damage"@.len());
    assert("Time"@.len() != "Pierce"@.len());
    assert("Time"@.len() != "piercing"@.len());
    assert("Time"@.len() != "Strength"@.len());
    assert("Time"@.len() != "strength"@.len());
    assert("Time"@.len() != "Defenses"@.len());
    assert("Time"@.len() != "armor"@.len());
    assert("Time"@.len() != "Resources"@.len());
    assert("Aimed"@.len() != "Burning"@.len());
    assert("Aimed"@.len() != "Frozen"@.len());
    assert("Aimed"@.len() != "temperature"@.len());
    assert("Aimed"@.len() != "ignite"@.len());
    assert("Aimed"@.len() != "static charge"@.len());
    assert("Aimed"@[0] != "ticks"@[0]);
    assert("Aimed"@.len() != "Damage"@.len());
    assert("Aimed"@.len() != "Pierce"@.len());
    assert("Aimed"@.len() != "piercing"@.len());
    assert("Aimed"@.len() != "Strength"@.len());
    assert("Aimed"@.len() != "strength"@.len());
    assert("Aimed"@.len() != "Defenses"@.len());
    assert("Aimed"@[0] != "armor"@[0]);
    assert("Aimed"@.len() != "Resources"@.len());
    assert("Burning"@.len() != "Frozen"@.len());
    assert("Burning"@.len() != "temperature"@.len());
    assert("Burning"@.len() != "ignite"@.len());
    assert("Burning"@.len() != "static charge"@.len());
    assert("Burning"@.len() != "ticks"@.len());
    assert("Burning"@.len() != "Damage"@.len());
    assert("Burning"@.len() != "Pierce"@.len());
    assert("Burning"@.len() != "piercing"@.len());
    assert("Burning"@.len() != "Strength"@.len());
    assert("Burning"@.len() != "strength"@.len());
    assert("Burning"@.len() != "Defenses"@.len());
    assert("Burning"@.len() != "armor"@.len());
    assert("Burning"@.len() != "Resources"@.len());
    assert("Frozen"@.len() != "temperature"@.len());
    assert("Frozen"@[0] != "ignite"@[0]);
    assert("Frozen"@.len() != "static charge"@.len());
    assert("Frozen"@.len() != "ticks"@.len());
    assert("Frozen"@[0] != "Damage"@[0]);
    assert("Frozen"@[0] != "Pierce"@[0]);
    assert("Frozen"@.len() != "piercing"@.len());
    assert("Frozen"@.len() != "Strength"@.len());
    assert("Frozen"@.len() != "strength"@.len());
    assert("Frozen"@.len() != "Defenses"@.len());
    assert("Frozen"@.len() != "armor"@.len());
    assert("Frozen"@.len() != "Resources"@.len());
    assert("temperature"@.len() != "ignite"@.len());
    assert("temperature"@.len() != "static charge"@.len());
    assert("temperature"@.len() != "ticks"@.len());
    assert("temperature"@.len() != "Damage"@.len());
    assert("temperature"@.len() != "Pierce"@.len());
    assert("temperature"@.len() != "piercing"@.len());
    assert("temperature"@.len() != "Strength"@.len());
    assert("temperature"@.len() != "strength"@.len());
    assert("temperature"@.len() != "Defenses"@.len());
    assert("temperature"@.len() != "armor"@.len());
    assert("temperature"@.len() != "Resources"@.len());
    assert("ignite"@.len() != "static charge"@.len());
    assert("ignite"@.len() != "ticks"@.len());
    assert("ignite"@[0] != "Damage"@[0]);
    assert("ignite"@[0] != "Pierce"@[0]);
    assert("ignite"@.len() != "piercing"@.len());
    assert("ignite"@.len() != "Strength"@.len());
    assert("ignite"@.len() != "strength"@.len());
    assert("ignite"@.len() != "Defenses"@.len());
    assert("ignite"@.len() != "armor"@.len());
    assert("ignite"@.len() != "Resources"@.len());
    assert("static charge"@.len() != "ticks"@.len());
    assert("static charge"@.len() != "Damage"@.len());
    assert("static charge"@.len() != "Pierce"@.len());
    assert("static charge"@.len() != "piercing"@.len());
    assert("static charge"@.len() != "Strength"@.len());
    assert("static charge"@.len() != "strength"@.len());
    assert("static charge"@.len() != "Defenses"@.len());
    assert("static charge"@.len() != "armor"@.len());
    assert("static charge"@.len() != "Resources"@.len());
    assert("ticks"@.len() != "Damage"@.len());
    assert("ticks"@.len() != "Pierce"@.len());
    assert("ticks"@.len() != "piercing"@.len());
    assert("ticks"@.len() != "Strength"@.len());
    assert("ticks"@.len() != "strength"@.len());
    assert("ticks"@.len() != "Defenses"@.len());
    assert("ticks"@[0] != "armor"@[0]);
    assert("ticks"@.len() != "Resources"@.len());
    assert("Damage"@[0] != "Pierce"@[0]);
    assert("Damage"@.len() != "piercing"@.len());
    assert("Damage"@.len() != "Strength"@.len());
    assert("Damage"@.len() != "strength"@.len());
    assert("Damage"@.len() != "Defenses"@.len());
    assert("Damage"@.len() != "armor"@.len());
    assert("Damage"@.len() != "Resources"@.len());
    assert("Pierce"@.len() != "piercing"@.len());
    assert("Pierce"@.len() != "Strength"@.len());
    assert("Pierce"@.len() != "strength"@.len());
    assert("Pierce"@.len() != "Defenses"@.len());
    assert("Pierce"@.len() != "armor"@.len());
    assert("Pierce"@.len() != "Resources"@.len());
    assert("piercing"@[0] != "Strength"@[0]);
    assert("piercing"@[0] != "strength"@[0]);
    assert("piercing"@[0] != "Defenses"@[0]);
    assert("piercing"@.len() != "armor"@.len());
    assert("piercing"@.len() != "Resources"@.len());
    assert("Strength"@[0] != "strength"@[0]);
    assert("Strength"@[0] != "Defenses"@[0]);
    assert("Strength"@.len() != "armor"@.len());
    assert("Strength"@.len() != "Resources"@.len());
    assert("strength"@[0] != "Defenses"@[0]);
    assert("strength"@.len() != "armor"@.len());
    assert("strength"@.len() != "Resources"@.len());
    assert("Defenses"@.len() != "armor"@.len());
    assert("Defenses"@.len() != "Resources"@.len());
    assert("armor"@.len() != "Resources"@.len());
    lemma_help_topic_words(word);
    assert forall|k: int|
        0 <= k < top_level_names().len() implies spec_page(spec_help_topic(#[trigger] top_level_names()[k])) is Some
            || spec_help_topic(top_level_names()[k]) == "Resources"@ by {
        lemma_help_topic_words(top_level_names()[k]);
    }
}

/// The help page on `topic`, where help has one of its own.
fn page_of(t: &str) -> (r: Option<HelpInfo>)
    ensures
        match spec_page(t@) {
            Some(page) => r is Some && shows(r->0, page.0, page.1),
            None => r is None,
        },
{
    let page = if str_equal(t, "Top Level Help") {
        HelpInfo::text_header("Help", top_level_lines())
    } else if str_equal(t, "Getting Started") {
        HelpInfo::text_header("Getting Started", pages::getting_started_lines())
    } else if str_equal(t, "Damage & Defenses") {
        HelpInfo::text_header("Damage & Defenses", pages::damage_defenses_lines())
    } else if str_equal(t, "Strength in Depth") {
        HelpInfo::text_header("Strength in Depth", pages::strength_in_depth_lines())
    } else if str_equal(t, "Defenses in Depth") {
        HelpInfo::text_header("Defenses in Depth", pages::defenses_in_depth_lines())
    } else if str_equal(t, "Health") {
        HelpInfo::no_header(pages::health_lines())
    } else if str_equal(t, "Absorb") {
        HelpInfo::no_header(pages::absorb_lines())
    } else if str_equal(t, "Dodge") {
        HelpInfo::no_header(pages::dodge_lines())
    } else if str_equal(t, "Armor") {
        HelpInfo::no_header(pages::armor_lines())
    } else if str_equal(t, "Exhaustion") {
        HelpInfo::no_header(pages::exhaustion_lines())
    } else if str_equal(t, "Focus") {
        HelpInfo::no_header(pages::focus_lines())
    } else if str_equal(t, "Adrenaline") {
        HelpInfo::no_header(pages::adrenaline_lines())
    } else if str_equal(t, "Bullets") {
        HelpInfo::no_header(pages::bullets_lines())
    } else if str_equal(t, "Defense Example") {
        HelpInfo::text_header("Defense Example", pages::defense_example_lines())
    } else if str_equal(t, "Gunslinger") {
        HelpInfo::text_header("Gunslinger", pages::gunslinger_lines())
    } else if str_equal(t, "Magnum Bullets") {
        ammo_page(GunslingerAmmo::Magnum)
    } else if str_equal(t, "Ignite Bullets") {
        ammo_page(GunslingerAmmo::Ignite)
    } else if str_equal(t, "Cyclone Bullets") {
        ammo_page(GunslingerAmmo::Cyclone)
    } else if str_equal(t, "Static Charge") {
        HelpInfo::text_header("Static Charge", pages::static_charge_lines())
    } else if str_equal(t, "Status Effects") {
        HelpInfo::text_header("Status Effects", pages::status_effects_lines())
    } else if str_equal(t, "Temperature") {
        HelpInfo::text_header("Temperature", pages::temperature_lines())
    } else if str_equal(t, "Time") {
        HelpInfo::text_header("Time", pages::time_lines())
    } else if str_equal(t, "Aimed") {
        HelpInfo::find_status(StatusKind::Aimed)
    } else {
        return None;
    };
    Some(page)
}

/// The help page that `word` leads to, where help has one of its own: the
/// word is first taken to its topic.
pub fn find_page(word: &str) -> (r: Option<HelpInfo>)
    ensures
        match spec_page(spec_help_topic(word@)) {
            Some(page) => r is Some && shows(r->0, page.0, page.1),
            None => r is None,
        },
{
    let topic = help_topic(word);
    page_of(topic.as_str())
}


/// The help lines on a skill: what it does, its reach, then what it costs
/// and asks for.
pub open spec fn spec_skill_help_text(skill: SkillInfo) -> Seq<Seq<char>> {
    spec_effect_report(skill.effect) + (match skill.range {
        Some(range) => seq!["Range: "@ + spec_decimal(range as int)],
        None => Seq::empty(),
    }) + seq![""@] + (match skill.focus_use {
        Some(focus) => seq!["Costs "@ + spec_hundredths(focus) + " [[Focus]]"@],
        None => Seq::empty(),
    }) + (match skill.exhaustion {
        Some(exhaustion) => seq!["Costs "@ + spec_hundredths(exhaustion) + " [[Exhaustion]]"@],
        None => Seq::empty(),
    }) + (match skill.ammo_info {
        Some(ammo) => seq!["Costs "@ + spec_decimal(ammo.usage as int) + " "@ + ammo_help_name(ammo.kind)],
        None => Seq::empty(),
    }) + line_if(!skill.must_be_clear, "Requires no Line of Sight."@) + line_if(skill.no_time, "Requires no time to use."@)
}

/// Whether `help` is the page on the skill `skill` looked up as `word`:
/// titled `word`, beside the skill's image where it has one, with the
/// skill's help lines.
pub open spec fn shows_skill(help: HelpInfo, word: Seq<char>, skill: SkillInfo) -> bool {
    &&& match skill.image {
        Some(image) => help.header matches HelpHeader::Image(title, picture) && title@ == word && picture@ == image@,
        None => help.header matches HelpHeader::Text(title) && title@ == word,
    }
    &&& string_views(help.text@) == spec_skill_help_text(skill)
}

/// Appends `line` to `details` when `line` is there.
fn push_some(details: &mut Vec<String>, line: Option<String>)
    ensures
        string_views(final(details)@) == string_views(old(details)@) + match line {
            Some(l) => seq![l@],
            None => Seq::<Seq<char>>::empty(),
        },
{
    match line {
        Some(l) => push_line(details, l),
        None => {
            assert(string_views(details@) + Seq::<Seq<char>>::empty() =~= string_views(details@));
        },
    }
}

impl HelpInfo {
    /// The help page on the skill `skill`, looked up as `word`: titled `word`,
    /// beside the skill's image where it has one.
    pub fn get_skill_help(word: &str, skill: &SkillInfo) -> (r: HelpInfo)
        requires
            effect_reportable(skill.effect),
        ensures
            shows_skill(r, word@, *skill),
    {
        let header = match skill.image {
            Some(image) => HelpHeader::Image(String::from_str(word), String::from_str(image)),
            None => HelpHeader::Text(String::from_str(word)),
        };
        let mut details: Vec<String> = Vec::new();
        let ghost start = string_views(details@);
        report_skill_effect(&mut details, &skill.effect);
        push_some(
            &mut details,
            match skill.range {
                Some(range) => Some(concat2("Range: ", decimal_u32(range).as_str())),
                None => None,
            },
        );
        push_line(&mut details, String::from_str(""));
        push_some(
            &mut details,
            match skill.focus_use {
                Some(focus) => Some(concat3("Costs ", hundredths_string(focus).as_str(), " [[Focus]]")),
                None => None,
            },
        );
        push_some(
            &mut details,
            match skill.exhaustion {
                Some(exhaustion) => Some(concat3("Costs ", hundredths_string(exhaustion).as_str(), " [[Exhaustion]]")),
                None => None,
            },
        );
        push_some(
            &mut details,
            match skill.ammo_info {
                Some(ammo) => Some(concat4("Costs ", decimal_u32(ammo.usage).as_str(), " ", HelpInfo::get_ammo_name(ammo.kind))),
                None => None,
            },
        );
        push_some(
            &mut details,
            if !skill.must_be_clear {
                Some(String::from_str("Requires no Line of Sight."))
            } else {
                None
            },
        );
        push_some(
            &mut details,
            if skill.no_time {
                Some(String::from_str("Requires no time to use."))
            } else {
                None
            },
        );
        assert(string_views(details@) =~= spec_skill_help_text(*skill));
        HelpInfo::init(header, details)
    }
}


/// `s` written as a help link when `use_links`, as it is otherwise.
pub open spec fn spec_linkify(s: Seq<char>, use_links: bool) -> Seq<char> {
    if use_links {
        "[["@ + s + "]]"@
    } else {
        s
    }
}

/// `s` written as a help link when `use_links`, as it is otherwise.
pub fn linkify(s: &str, use_links: bool) -> (r: String)
    ensures
        r@ == spec_linkify(s@, use_links),
{
    if use_links {
        concat3("[[", s, "]]")
    } else {
        String::from_str(s)
    }
}

/// `label: value` with the label linked when `use_links`.
pub open spec fn labeled(label: Seq<char>, use_links: bool, value: Seq<char>) -> Seq<char> {
    spec_linkify(label, use_links) + ": "@ + value
}

fn labeled_line(label: &str, use_links: bool, value: &str) -> (r: String)
    ensures
        r@ == labeled(label@, use_links, value@),
{
    concat3(linkify(label, use_links).as_str(), ": ", value)
}

/// `a/b` for two counts.
pub open spec fn fraction(a: u32, b: u32) -> Seq<char> {
    spec_decimal(a as int) + "/"@ + spec_decimal(b as int)
}

fn fraction_text(a: u32, b: u32) -> (r: String)
    ensures
        r@ == fraction(a, b),
{
    concat3(decimal_u32(a).as_str(), "/", decimal_u32(b).as_str())
}

/// The summary lines on a character's defenses: health (with any absorb
/// shield), then dodge and armor where it has any.
pub open spec fn spec_defense_summary(d: Defenses, use_links: bool) -> Seq<Seq<char>> {
    seq![
        if d.absorb != 0 {
            labeled("Health"@, use_links, "(+"@ + spec_decimal(d.absorb as int) + ") "@ + fraction(d.health, d.max_health))
        } else {
            labeled("Health"@, use_links, fraction(d.health, d.max_health))
        },
    ] + line_if(d.max_dodge != 0, labeled("Dodge"@, use_links, fraction(d.dodge, d.max_dodge))) + line_if(
        d.armor != 0,
        labeled("Armor"@, use_links, spec_decimal(d.armor as int)),
    )
}

/// The summary lines on a character's defenses.
pub fn defense_summary(defenses: &Defenses, use_links: bool) -> (r: Vec<String>)
    ensures
        string_views(r@) == spec_defense_summary(*defenses, use_links),
{
    let mut r: Vec<String> = Vec::new();
    let health = if defenses.absorb != 0 {
        let shield = concat3("(+", decimal_u32(defenses.absorb).as_str(), ") ");
        labeled_line("Health", use_links, concat2(shield.as_str(), fraction_text(defenses.health, defenses.max_health).as_str()).as_str())
    } else {
        labeled_line("Health", use_links, fraction_text(defenses.health, defenses.max_health).as_str())
    };
    push_line(&mut r, health);
    push_line_if(
        &mut r,
        defenses.max_dodge != 0,
        labeled_line("Dodge", use_links, fraction_text(defenses.dodge, defenses.max_dodge).as_str()),
    );
    push_line_if(&mut r, defenses.armor != 0, labeled_line("Armor", use_links, decimal_u32(defenses.armor).as_str()));
    assert(string_views(r@) =~= spec_defense_summary(*defenses, use_links));
    r
}

/// The name a summary gives the ammunition `kind`.
pub open spec fn ammo_kind_name(kind: AmmoKind) -> Seq<char> {
    match kind {
        AmmoKind::Bullets => "Bullets"@,
        AmmoKind::Eggs => "Eggs"@,
        AmmoKind::Feathers => "Feathers"@,
        AmmoKind::Charge => "Charge"@,
        AmmoKind::Adrenaline => "Adrenaline"@,
    }
}

fn ammo_kind_text(kind: AmmoKind) -> (r: &'static str)
    ensures
        r@ == ammo_kind_name(kind),
{
    match kind {
        AmmoKind::Bullets => "Bullets",
        AmmoKind::Eggs => "Eggs",
        AmmoKind::Feathers => "Feathers",
        AmmoKind::Charge => "Charge",
        AmmoKind::Adrenaline => "Adrenaline",
    }
}

/// The summary line on the ammunition `kind`, where the character has a
/// maximum of it.
pub open spec fn ammo_line(ammo: Map<AmmoKind, u32>, max: Map<AmmoKind, u32>, kind: AmmoKind, use_links: bool) -> Seq<Seq<char>> {
    line_if(max.contains_key(kind), labeled(ammo_kind_name(kind), use_links, fraction(ammo[kind], max[kind])))
}

/// The summary lines on a character's ammunition: for each kind in order
/// that it has a maximum of, how much it holds of how much.
pub open spec fn spec_ammo_summary(resources: SkillResources, use_links: bool) -> Seq<Seq<char>> {
    let a = resources.ammo@;
    let m = resources.max@;
    ammo_line(a, m, AmmoKind::Bullets, use_links) + ammo_line(a, m, AmmoKind::Eggs, use_links) + ammo_line(
        a,
        m,
        AmmoKind::Feathers,
        use_links,
    ) + ammo_line(a, m, AmmoKind::Charge, use_links) + ammo_line(a, m, AmmoKind::Adrenaline, use_links)
}

fn push_ammo_line(r: &mut Vec<String>, resources: &SkillResources, kind: AmmoKind, use_links: bool)
    requires
        resources.wf(),
        resources.max@.contains_key(kind) ==> resources.ammo@.contains_key(kind),
    ensures
        string_views(final(r)@) == string_views(old(r)@) + ammo_line(resources.ammo@, resources.max@, kind, use_links),
{
    match resources.max.get(kind) {
        Some(max) => {
            let held = match resources.ammo.get(kind) {
                Some(a) => a,
                None => 0,
            };
            push_line_if(r, true, labeled_line(ammo_kind_text(kind), use_links, fraction_text(held, max).as_str()));
        },
        None => push_line_if(r, false, String::new()),
    }
}

/// The summary lines on a character's ammunition.
pub fn ammo_summary(resources: &SkillResources, use_links: bool) -> (r: Vec<String>)
    requires
        resources.wf(),
        forall|kind: AmmoKind| resources.max@.contains_key(kind) ==> resources.ammo@.contains_key(kind),
    ensures
        string_views(r@) == spec_ammo_summary(*resources, use_links),
{
    let mut r: Vec<String> = Vec::new();
    push_ammo_line(&mut r, resources, AmmoKind::Bullets, use_links);
    push_ammo_line(&mut r, resources, AmmoKind::Eggs, use_links);
    push_ammo_line(&mut r, resources, AmmoKind::Feathers, use_links);
    push_ammo_line(&mut r, resources, AmmoKind::Charge, use_links);
    push_ammo_line(&mut r, resources, AmmoKind::Adrenaline, use_links);
    assert(string_views(r@) =~= spec_ammo_summary(*resources, use_links));
    r
}

/// The summary line on a character's temperature, shown when it is not 0.
pub open spec fn spec_temperature_summary(temperature: i32, use_links: bool) -> Seq<Seq<char>> {
    line_if(temperature != 0, labeled("Temperature"@, use_links, spec_decimal(temperature as int)))
}

/// The summary line on a character's temperature.
pub fn temperature_summary(temperature: i32, use_links: bool) -> (r: Vec<String>)
    ensures
        string_views(r@) == spec_temperature_summary(temperature, use_links),
{
    let mut r: Vec<String> = Vec::new();
    push_line_if(&mut r, temperature != 0, labeled_line("Temperature", use_links, decimal_string(temperature).as_str()));
    assert(string_views(r@) =~= spec_temperature_summary(temperature, use_links));
    r
}

/// The names of `statuses` joined by spaces, each linked when `use_links`.
pub open spec fn joined_statuses(statuses: Seq<Seq<char>>, use_links: bool) -> Seq<char>
    decreases statuses.len(),
{
    if statuses.len() == 0 {
        Seq::empty()
    } else if statuses.len() == 1 {
        spec_linkify(statuses[0], use_links)
    } else {
        joined_statuses(statuses.drop_last(), use_links) + " "@ + spec_linkify(statuses.last(), use_links)
    }
}

/// The summary line listing a character's statuses, shown when it has any.
pub open spec fn spec_status_summary(statuses: Seq<Seq<char>>, use_links: bool) -> Seq<Seq<char>> {
    line_if(statuses.len() != 0, "Status: "@ + joined_statuses(statuses, use_links))
}

/// The summary line listing a character's statuses.
pub fn status_summary(statuses: &Vec<String>, use_links: bool) -> (r: Vec<String>)
    ensures
        string_views(r@) == spec_status_summary(string_views(statuses@), use_links),
{
    let ghost names = string_views(statuses@);
    let mut joined = String::new();
    let mut k: usize = 0;
    while k < statuses.len()
        invariant
            k <= statuses@.len(),
            names == string_views(statuses@),
            joined@ == joined_statuses(names.take(k as int), use_links),
        decreases statuses@.len() - k,
    {
        let link = linkify(statuses[k].as_str(), use_links);
        assert(names.take(k + 1).drop_last() =~= names.take(k as int));
        assert(names.take(k + 1).last() == names[k as int]);
        if k == 0 {
            joined = link;
        } else {
            joined = concat3(joined.as_str(), " ", link.as_str());
        }
        k += 1;
    }
    assert(names.take(k as int) =~= names);
    let mut r: Vec<String> = Vec::new();
    push_line_if(&mut r, statuses.len() != 0, concat2("Status: ", joined.as_str()));
    assert(string_views(r@) =~= spec_status_summary(names, use_links));
    r
}

impl HelpInfo {
    /// The help page on a field that hits with `damage`.
    pub fn find_field(damage: &Damage) -> (r: HelpInfo)
        requires
            damage_reportable(*damage),
        ensures
            shows(r, Some("Field"@), spec_damage_report(*damage)),
    {
        let mut details: Vec<String> = Vec::new();
        report_damage(&mut details, damage);
        assert(string_views(details@) =~= spec_damage_report(*damage));
        HelpInfo::text_header("Field", details)
    }
}

impl HelpInfo {
    /// The help page on an orb that hits with `damage`.
    pub fn find_orb(damage: &Damage) -> (r: HelpInfo)
        requires
            damage_reportable(*damage),
        ensures
            shows(r, Some("Orb Projectile"@), spec_damage_report(*damage)),
    {
        let mut details: Vec<String> = Vec::new();
        report_damage(&mut details, damage);
        assert(string_views(details@) =~= spec_damage_report(*damage));
        HelpInfo::text_header("Orb Projectile", details)
    }
}

/// The numbers the page on resources quotes, written out by whoever holds
/// the exhaustion and focus rates.
pub struct ResourceRates {
    pub max_exhaustion: String,
    pub exhaustion_per_100_ticks: String,
    pub exhaustion_cost_per_move: String,
    pub focus_per_100_ticks: String,
}

/// The lines of the page on resources quoting `rates`.
pub open spec fn rates_text(rates: ResourceRates) -> Seq<Seq<char>> {
    resources_text(
        rates.max_exhaustion@,
        rates.exhaustion_per_100_ticks@,
        rates.exhaustion_cost_per_move@,
        rates.focus_per_100_ticks@,
    )
}

/// Whether `help` is the page that `word` leads to, with `skills` known and
/// the resources page quoting `rates`: the word is taken to its topic; a
/// topic with a page of its own shows it, then resources, then a skill of
/// that name, and any other topic shows the error page.
pub open spec fn found(help: HelpInfo, word: Seq<char>, skills: Map<Seq<char>, SkillInfo>, rates: ResourceRates) -> bool {
    let topic = spec_help_topic(word);
    match spec_page(topic) {
        Some(page) => shows(help, page.0, page.1),
        None => if topic == "Resources"@ {
            shows(help, Some("Resources"@), rates_text(rates))
        } else if skills.contains_key(topic) {
            shows_skill(help, topic, skills[topic])
        } else {
            shows(help, None, error_text(topic))
        },
    }
}

impl HelpInfo {
    /// The help page that `word` leads to.
    pub fn find(word: &str, skills: &SkillsResource, rates: &ResourceRates) -> (r: HelpInfo)
        requires
            skills.wf(),
            spec_page(spec_help_topic(word@)) is None && spec_help_topic(word@) != "Resources"@ && skills@.contains_key(
                spec_help_topic(word@),
            ) ==> effect_reportable(skills@[spec_help_topic(word@)].effect),
        ensures
            found(r, word@, skills@, *rates),
    {
        let topic = help_topic(word);
        let t = topic.as_str();
        if let Some(page) = page_of(t) {
            return page;
        }
        if str_equal(t, "Resources") {
            return resources_page(
                rates.max_exhaustion.as_str(),
                rates.exhaustion_per_100_ticks.as_str(),
                rates.exhaustion_cost_per_move.as_str(),
                rates.focus_per_100_ticks.as_str(),
            );
        }
        if skills.contains(t) {
            let skill = skills.get(t);
            return HelpInfo::get_skill_help(t, &skill);
        }
        HelpInfo::get_error(t)
    }
}

/// Whether the help lines for a hit of `damage` can be written.
pub fn can_report_damage(damage: &Damage) -> (r: bool)
    ensures
        r == damage_reportable(*damage),
{
    let opt = damage.options;
    if !(option_set(opt, DamageOptions::RAISE_TEMPERATURE) || option_set(opt, DamageOptions::LOWER_TEMPERATURE)) {
        return true;
    }
    let multiplier: u64 = if option_set(opt, DamageOptions::LARGE_TEMPERATURE_DELTA) {
        LARGE_TEMPERATURE_MULTIPLIER as u64
    } else {
        1
    };
    let per_dice = TEMPERATURE_PER_DICE_DAMAGE as u64;
    let dice = damage.dice() as u64;
    assert(per_dice * dice <= 5 * 0xffff_ffffu64) by (nonlinear_arith)
        requires
            per_dice == 5,
            dice <= 0xffff_ffffu64,
    ;
    assert(per_dice * dice * multiplier <= 20 * 0xffff_ffffu64) by (nonlinear_arith)
        requires
            per_dice * dice <= 5 * 0xffff_ffffu64,
            multiplier <= 4,
    ;
    assert(per_dice * dice * multiplier == temperature_change(*damage)) by (nonlinear_arith)
        requires
            per_dice == 5,
            dice == damage.amount.dice,
            multiplier == (if has_option(damage.options, DamageOptions::LARGE_TEMPERATURE_DELTA) { 4int } else { 1int }),
            temperature_change(*damage) == 5 * damage.amount.dice * (if has_option(damage.options, DamageOptions::LARGE_TEMPERATURE_DELTA) { 4int } else { 1int }),
    ;
    per_dice * dice * multiplier <= 0xffff_ffffu64
}

/// Whether the help lines for a skill with `effect` can be written.
pub fn can_report_effect(effect: &SkillEffect) -> (r: bool)
    ensures
        r == effect_reportable(*effect),
    decreases effect,
{
    match effect {
        SkillEffect::RangedAttack(damage, _) => can_report_damage(damage),
        SkillEffect::MeleeAttack(damage, _) => can_report_damage(damage),
        SkillEffect::ConeAttack(damage, _, _) => can_report_damage(damage),
        SkillEffect::ChargeAttack(damage, _) => can_report_damage(damage),
        SkillEffect::Field(FieldEffect::Damage(damage, _), _) => can_report_damage(damage),
        SkillEffect::Field(FieldEffect::SustainedDamage(damage, _), _) => can_report_damage(damage),
        SkillEffect::MoveAndShoot(damage, _, _) => can_report_damage(damage),
        SkillEffect::Orb(damage, _, _, _) => can_report_damage(damage),
        SkillEffect::Buff(kind, _) => !matches!(kind, StatusKind::RegenTick),
        SkillEffect::Sequence(first, second) => can_report_effect(first) && can_report_effect(second),
        _ => true,
    }
}
} // verus!
