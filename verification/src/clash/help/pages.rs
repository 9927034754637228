use vstd::prelude::*;

use crate::clash::temperature::{BURN_DURATION, TEMPERATURE_BURN_POINT, TEMPERATURE_DAMAGE_PER_TICK, TEMPERATURE_FREEZE_POINT, TEMPERATURE_MIDPOINT};
use crate::clash::time::{BASE_ACTION_COST, MOVE_ACTION_COST};
use crate::text::{concat3, decimal_string, decimal_u32, lines_of, push_line, spec_decimal, string_views};

verus! {

/// The lines of the "Getting Started" page.
pub open spec fn getting_started_text() -> Seq<Seq<char>> {
    seq![
        "Welcome to Arena: Gunpowder And Sorcery!"@,
        "Survive arena combat with all sorts of man, beast, and the arcane."@,
        ""@,
        "- Right click adjacent tile or use arrow keys to move your character one square North/South/East/West."@,
        "- 1-5 keys or clicking on the skill bar will activate a skill. Most will require a target."@,
        "- Skill range is indicated by yellow highlighted squares."@,
        "- Press F1 at any time to bring up the global help."@,
        "- Middle clicking (or Ctrl + Left click) almost anywhere, specially on underlined text will bring up a context help."@,
        "- Middle click (or Ctrl + Left click) again to promote the tooltip into a full help window."@,
        "- Alt + Enter toggles full-screen mode."@,
        ""@,
        "In the future, there will hopefully be a full featured tutorial."@,
        ""@,
        "Good Luck!"@,
    ]
}

/// The lines of the "Damage & Defenses" page.
pub open spec fn damage_defenses_text() -> Seq<Seq<char>> {
    seq![
        "Combat in ArenaGS is based upon the interaction of skills Strength and character's Defenses."@,
        ""@,
        "Strength: Each ability as a base strength rating, possibly modified by status effects and the situation."@,
        ""@,
        "When a skill is resolved, the strength is rolled into a single value which impacts the damage/healing done."@,
        "Each point of strength converts to roughly 1.5 points of damage or healing."@,
        ""@,
        "See [[Strength in Depth]] for details."@,
        ""@,
        "That damage is then applied to the character's defenses."@,
        " - Dodge and Armor values are applied as strength and subtracted from the total damage."@,
        " - The remaining damage is applied first to any absorb barrier, and then to the health total."@,
        " - Some damage is 'piercing' and ignores Dodge and Armor completely."@,
        ""@,
        "See [[Defenses in Depth]] for details."@,
    ]
}

/// The lines of the "Strength in Depth" page.
pub open spec fn strength_in_depth_text() -> Seq<Seq<char>> {
    seq![
        "Each point of strength is added to a pool of two sided dice (d2's)."@,
        "Half of the pool is immediately set to the max value of 2, and the rest is rolled."@,
        "This gives a random result, but with a somewhat small range."@,
        ""@,
        "Example:"@,
        "8 Strength"@,
        "- Create a pool of 8 two sided dice (8d2)"@,
        "- 4 of them are immediately set to 2 and set aside. (Total 8)"@,
        "- 4 of them are individually rolled, each of which can roll value 1 or 2 (4-8)"@,
        "The total result will be in the range of 12 to 16 (8 + 4 to 8 + 8)"@,
    ]
}

/// The lines of the "Defenses in Depth" page.
pub open spec fn defenses_in_depth_text() -> Seq<Seq<char>> {
    seq![
        "Defenses in ArenaGS come in four forms (Dodge, Armor, Absorb, and Health)"@,
        ""@,
        "Dodge and Armor are strength values rolled to a value which reduces the raw damage taken."@,
        "- Dodge is a pool of dice which is consumed to reduce damage, and is replenished by movement."@,
        "- Armor tends to be lower, but applies equally to reduce attack damage."@,
        ""@,
        "Absorb and Health are pools of health that are depleted by damage that makes it past."@,
        "- Absorb is a shield that goes is taken from first."@,
        "- Once a character's health is reduced to zero or below, they die."@,
        ""@,
        "See [[Defense Example]] for an example worked out."@,
    ]
}

/// The lines of the "Health" page.
pub open spec fn health_text() -> Seq<Seq<char>> {
    seq![
        "Once depleted by damage to zero or below the character dies."@,
    ]
}

/// The lines of the "Absorb" page.
pub open spec fn absorb_text() -> Seq<Seq<char>> {
    seq![
        "A pool of health that are depleted first by damage before health."@,
    ]
}

/// The lines of the "Dodge" page.
pub open spec fn dodge_text() -> Seq<Seq<char>> {
    seq![
        "A pool of dice which is consumed to reduce damage, and is replenished by movement."@,
    ]
}

/// The lines of the "Armor" page.
pub open spec fn armor_text() -> Seq<Seq<char>> {
    seq![
        "A pool of dice which applies every attack to reduce incoming damage."@,
    ]
}

/// The lines of the "Exhaustion" page.
pub open spec fn exhaustion_text() -> Seq<Seq<char>> {
    seq![
        "How much intense activity a character cna do before being physically taxed."@,
    ]
}

/// The lines of the "Focus" page.
pub open spec fn focus_text() -> Seq<Seq<char>> {
    seq![
        "How much concentration and grit a character can spent in an effort."@,
    ]
}

/// The lines of the "Adrenaline" page.
pub open spec fn adrenaline_text() -> Seq<Seq<char>> {
    seq![
        "The surge of excitement and will needed for some abilities."@,
    ]
}

/// The lines of the "Bullets" page.
pub open spec fn bullets_text() -> Seq<Seq<char>> {
    seq![
        "Ammunition used by ranged flashpowder weapons. Will need to be reloaded was expended."@,
    ]
}

/// The lines of the "Defense Example" page.
pub open spec fn defense_example_text() -> Seq<Seq<char>> {
    seq![
        "6 Strength attack"@,
        "against"@,
        "1 Armor/2 Dodge character with 5 Absorb and 20 Health"@,
        ""@,
        "- First the 6 strength is rolled into an attack damage as described in [[Strength in Depth]]. It rolls 10 total for this example."@,
        "- Dodge applies first, apply as many dodge dice as available (up to the total strength). Roll 2d2 (2) and subtract from 10. (8 incoming damage now)."@,
        "- Dodge pool is now 0/2, and won't reduce damage until refilled (2 points per square traveled)."@,
        "- Armor applies same, but it does not deplete so applies to every attack. 1d2 rolls a 2. (6 incoming damage now)."@,
        "- Damage is now applied to Absorb/Health. Absorb is reduced by 5 to 0. Health is reduced from 20 to 19"@,
    ]
}

/// The lines of the "Gunslinger" page.
pub open spec fn gunslinger_text() -> Seq<Seq<char>> {
    seq![
        "Flashpowder is the explosive marriage of fire and air, throwing lead at unbelievable speeds. Gunslingers harness this power along with elemental ammunition, to forge their will into the law."@,
        ""@,
        "The gunslinger cycles through three kinds of ammo (Magnum, Ignite, Cyclone)."@,
        ""@,
        "- [[Magnum Bullets]] use a super heavyweight core packed into an extended bullet with custom grain flashpowder to pack the maximum damage into each shot."@,
        "- [[Ignite Bullets]] pack distilled dragon fire into the hollow shell along with a impact trigger to ignite it upon impact."@,
        "- [[Cyclone Bullets]] distill crystallized gales and use gravity runes to contain hurricane force winds that can knock back and trigger lightning strikes."@,
        ""@,
        "Gunslingers are clothed in light armor better for the long trail than battle, and depend upon dexterity to [[Dodge]] incoming fire."@,
        ""@,
        "As the battle rages gunslinger's [[Adrenaline]] increases until they are able to pull off almost superhuman feats of agility and speed."@,
    ]
}

/// The opening lines of the "Magnum Bullets" page.
pub open spec fn magnum_bullets_intro() -> Seq<Seq<char>> {
    seq![
        "Since they have the highest base strength, Magnum is the to-go choice when facing heavily armored foes."@,
        "However since Magnum's oversized design does pretty dramatically reduce range, in comparison to the other choices."@,
        "Their lack of elemental effects tends to make and overall one dimensional, though forceful, impact."@,
        ""@,
        "Abilities:"@,
        ""@,
        "Magnum Bullets"@,
    ]
}

/// The opening lines of the "Ignite Bullets" page.
pub open spec fn ignite_bullets_intro() -> Seq<Seq<char>> {
    seq![
        "Ignite bullets are relatively accurate to medium-long range, and thought they lack the raw stopping power of Magnum rounds they can ignite enemies in flame."@,
        "Since [[Burning]] enemies take constant [[piercing]] damage, Ignite rounds are a solid all-around solution to armored or agile opponents, assuming you can pour on the heat."@,
        ""@,
        "Abilities:"@,
        ""@,
        "Ignite Bullets"@,
    ]
}

/// The opening lines of the "Cyclone Bullets" page.
pub open spec fn cyclone_bullets_intro() -> Seq<Seq<char>> {
    seq![
        "Though lacking some of the raw offensive power of the other ammo, Cyclone bullets provide superb flexibility both in offense and defense"@,
        "Cyclone abilities place and consume [[Static Charge]] on enemies to knock back or strike with lightning."@,
        ""@,
        "Abilities:"@,
        ""@,
        "Cyclone Bullets"@,
    ]
}

/// The lines of the "Static Charge" page.
pub open spec fn static_charge_text() -> Seq<Seq<char>> {
    seq![
        "Some abilities charge their targets with high levels of electric charge."@,
        ""@,
        "Other abilities can benefit from this charge may (depending on the skill):"@,
        "- Strike for additional [[piercing]] damage"@,
        "- Knock the target back with gale force winds"@,
    ]
}

/// The lines of the "Status Effects" page.
pub open spec fn status_effects_text() -> Seq<Seq<char>> {
    Seq::empty()
}

/// The lines of the "Temperature" page.
pub open spec fn temperature_text() -> Seq<Seq<char>> {
    seq![
        "All characters in ArenaGS have a temperature value which slowly reduces towards "@ + spec_decimal(TEMPERATURE_MIDPOINT as int) + "."@,
        ""@,
        "Some skills can raise or lower it:"@,
        ""@,
        "- Temperatures above "@ + spec_decimal(TEMPERATURE_BURN_POINT as int) + " will ignite a character in flames"@,
        "|tab|- Burning does "@ + spec_decimal(TEMPERATURE_DAMAGE_PER_TICK as int) + " [[piercing]] [[strength]] of damage every "@ + spec_decimal(BURN_DURATION as int) + " [[ticks]]."@,
        "|tab|- Once the temperatures is below "@ + spec_decimal(TEMPERATURE_BURN_POINT as int) + " they will quit burning."@,
        ""@,
        "- Temperatures below "@ + spec_decimal(TEMPERATURE_FREEZE_POINT as int) + " will freeze a character."@,
        "|tab|- Movements will cost an additional 50% time ([[ticks]]) to accomplish."@,
    ]
}

/// The lines of the "Time" page.
pub open spec fn time_text() -> Seq<Seq<char>> {
    seq![
        "Time in ArenaGS is based upon 'ticks', which accumulate until a character can act"@,
        ""@,
        "By default most actions consume "@ + spec_decimal(BASE_ACTION_COST as int) + " ticks and movement "@ + spec_decimal(MOVE_ACTION_COST as int) + " ticks"@,
        ""@,
        "Some status can reduce these costs, allowing more actions to be taken over a period of turns."@,
        ""@,
        "A rare few skills are 'instant speed'  - they do not costs ticks to use, allowing the invoker to take another action."@,
    ]
}

pub fn getting_started_lines() -> (r: Vec<String>)
    ensures
        string_views(r@) == getting_started_text(),
{
    let v = vec![
        "Welcome to Arena: Gunpowder And Sorcery!",
        "Survive arena combat with all sorts of man, beast, and the arcane.",
        "",
        "- Right click adjacent tile or use arrow keys to move your character one square North/South/East/West.",
        "- 1-5 keys or clicking on the skill bar will activate a skill. Most will require a target.",
        "- Skill range is indicated by yellow highlighted squares.",
        "- Press F1 at any time to bring up the global help.",
        "- Middle clicking (or Ctrl + Left click) almost anywhere, specially on underlined text will bring up a context help.",
        "- Middle click (or Ctrl + Left click) again to promote the tooltip into a full help window.",
        "- Alt + Enter toggles full-screen mode.",
        "",
        "In the future, there will hopefully be a full featured tutorial.",
        "",
        "Good Luck!",
    ];
    assert(v@.map_values(|s: &str| s@) =~= getting_started_text());
    lines_of(v)
}

pub fn damage_defenses_lines() -> (r: Vec<String>)
    ensures
        string_views(r@) == damage_defenses_text(),
{
    let v = vec![
        "Combat in ArenaGS is based upon the interaction of skills Strength and character's Defenses.",
        "",
        "Strength: Each ability as a base strength rating, possibly modified by status effects and the situation.",
        "",
        "When a skill is resolved, the strength is rolled into a single value which impacts the damage/healing done.",
        "Each point of strength converts to roughly 1.5 points of damage or healing.",
        "",
        "See [[Strength in Depth]] for details.",
        "",
        "That damage is then applied to the character's defenses.",
        " - Dodge and Armor values are applied as strength and subtracted from the total damage.",
        " - The remaining damage is applied first to any absorb barrier, and then to the health total.",
        " - Some damage is 'piercing' and ignores Dodge and Armor completely.",
        "",
        "See [[Defenses in Depth]] for details.",
    ];
    assert(v@.map_values(|s: &str| s@) =~= damage_defenses_text());
    lines_of(v)
}

pub fn strength_in_depth_lines() -> (r: Vec<String>)
    ensures
        string_views(r@) == strength_in_depth_text(),
{
    let v = vec![
        "Each point of strength is added to a pool of two sided dice (d2's).",
        "Half of the pool is immediately set to the max value of 2, and the rest is rolled.",
        "This gives a random result, but with a somewhat small range.",
        "",
        "Example:",
        "8 Strength",
        "- Create a pool of 8 two sided dice (8d2)",
        "- 4 of them are immediately set to 2 and set aside. (Total 8)",
        "- 4 of them are individually rolled, each of which can roll value 1 or 2 (4-8)",
        "The total result will be in the range of 12 to 16 (8 + 4 to 8 + 8)",
    ];
    assert(v@.map_values(|s: &str| s@) =~= strength_in_depth_text());
    lines_of(v)
}

pub fn defenses_in_depth_lines() -> (r: Vec<String>)
    ensures
        string_views(r@) == defenses_in_depth_text(),
{
    let v = vec![
        "Defenses in ArenaGS come in four forms (Dodge, Armor, Absorb, and Health)",
        "",
        "Dodge and Armor are strength values rolled to a value which reduces the raw damage taken.",
        "- Dodge is a pool of dice which is consumed to reduce damage, and is replenished by movement.",
        "- Armor tends to be lower, but applies equally to reduce attack damage.",
        "",
        "Absorb and Health are pools of health that are depleted by damage that makes it past.",
        "- Absorb is a shield that goes is taken from first.",
        "- Once a character's health is reduced to zero or below, they die.",
        "",
        "See [[Defense Example]] for an example worked out.",
    ];
    assert(v@.map_values(|s: &str| s@) =~= defenses_in_depth_text());
    lines_of(v)
}

pub fn health_lines() -> (r: Vec<String>)
    ensures
        string_views(r@) == health_text(),
{
    let v = vec![
        "Once depleted by damage to zero or below the character dies.",
    ];
    assert(v@.map_values(|s: &str| s@) =~= health_text());
    lines_of(v)
}

pub fn absorb_lines() -> (r: Vec<String>)
    ensures
        string_views(r@) == absorb_text(),
{
    let v = vec![
        "A pool of health that are depleted first by damage before health.",
    ];
    assert(v@.map_values(|s: &str| s@) =~= absorb_text());
    lines_of(v)
}

pub fn dodge_lines() -> (r: Vec<String>)
    ensures
        string_views(r@) == dodge_text(),
{
    let v = vec![
        "A pool of dice which is consumed to reduce damage, and is replenished by movement.",
    ];
    assert(v@.map_values(|s: &str| s@) =~= dodge_text());
    lines_of(v)
}

pub fn armor_lines() -> (r: Vec<String>)
    ensures
        string_views(r@) == armor_text(),
{
    let v = vec![
        "A pool of dice which applies every attack to reduce incoming damage.",
    ];
    assert(v@.map_values(|s: &str| s@) =~= armor_text());
    lines_of(v)
}

pub fn exhaustion_lines() -> (r: Vec<String>)
    ensures
        string_views(r@) == exhaustion_text(),
{
    let v = vec![
        "How much intense activity a character cna do before being physically taxed.",
    ];
    assert(v@.map_values(|s: &str| s@) =~= exhaustion_text());
    lines_of(v)
}

pub fn focus_lines() -> (r: Vec<String>)
    ensures
        string_views(r@) == focus_text(),
{
    let v = vec![
        "How much concentration and grit a character can spent in an effort.",
    ];
    assert(v@.map_values(|s: &str| s@) =~= focus_text());
    lines_of(v)
}

pub fn adrenaline_lines() -> (r: Vec<String>)
    ensures
        string_views(r@) == adrenaline_text(),
{
    let v = vec![
        "The surge of excitement and will needed for some abilities.",
    ];
    assert(v@.map_values(|s: &str| s@) =~= adrenaline_text());
    lines_of(v)
}

pub fn bullets_lines() -> (r: Vec<String>)
    ensures
        string_views(r@) == bullets_text(),
{
    let v = vec![
        "Ammunition used by ranged flashpowder weapons. Will need to be reloaded was expended.",
    ];
    assert(v@.map_values(|s: &str| s@) =~= bullets_text());
    lines_of(v)
}

pub fn defense_example_lines() -> (r: Vec<String>)
    ensures
        string_views(r@) == defense_example_text(),
{
    let v = vec![
        "6 Strength attack",
        "against",
        "1 Armor/2 Dodge character with 5 Absorb and 20 Health",
        "",
        "- First the 6 strength is rolled into an attack damage as described in [[Strength in Depth]]. It rolls 10 total for this example.",
        "- Dodge applies first, apply as many dodge dice as available (up to the total strength). Roll 2d2 (2) and subtract from 10. (8 incoming damage now).",
        "- Dodge pool is now 0/2, and won't reduce damage until refilled (2 points per square traveled).",
        "- Armor applies same, but it does not deplete so applies to every attack. 1d2 rolls a 2. (6 incoming damage now).",
        "- Damage is now applied to Absorb/Health. Absorb is reduced by 5 to 0. Health is reduced from 20 to 19",
    ];
    assert(v@.map_values(|s: &str| s@) =~= defense_example_text());
    lines_of(v)
}

pub fn gunslinger_lines() -> (r: Vec<String>)
    ensures
        string_views(r@) == gunslinger_text(),
{
    let v = vec![
        "Flashpowder is the explosive marriage of fire and air, throwing lead at unbelievable speeds. Gunslingers harness this power along with elemental ammunition, to forge their will into the law.",
        "",
        "The gunslinger cycles through three kinds of ammo (Magnum, Ignite, Cyclone).",
        "",
        "- [[Magnum Bullets]] use a super heavyweight core packed into an extended bullet with custom grain flashpowder to pack the maximum damage into each shot.",
        "- [[Ignite Bullets]] pack distilled dragon fire into the hollow shell along with a impact trigger to ignite it upon impact.",
        "- [[Cyclone Bullets]] distill crystallized gales and use gravity runes to contain hurricane force winds that can knock back and trigger lightning strikes.",
        "",
        "Gunslingers are clothed in light armor better for the long trail than battle, and depend upon dexterity to [[Dodge]] incoming fire.",
        "",
        "As the battle rages gunslinger's [[Adrenaline]] increases until they are able to pull off almost superhuman feats of agility and speed.",
    ];
    assert(v@.map_values(|s: &str| s@) =~= gunslinger_text());
    lines_of(v)
}

pub fn magnum_bullets_intro_lines() -> (r: Vec<String>)
    ensures
        string_views(r@) == magnum_bullets_intro(),
{
    let v = vec![
        "Since they have the highest base strength, Magnum is the to-go choice when facing heavily armored foes.",
        "However since Magnum's oversized design does pretty dramatically reduce range, in comparison to the other choices.",
        "Their lack of elemental effects tends to make and overall one dimensional, though forceful, impact.",
        "",
        "Abilities:",
        "",
        "Magnum Bullets",
    ];
    assert(v@.map_values(|s: &str| s@) =~= magnum_bullets_intro());
    lines_of(v)
}

pub fn ignite_bullets_intro_lines() -> (r: Vec<String>)
    ensures
        string_views(r@) == ignite_bullets_intro(),
{
    let v = vec![
        "Ignite bullets are relatively accurate to medium-long range, and thought they lack the raw stopping power of Magnum rounds they can ignite enemies in flame.",
        "Since [[Burning]] enemies take constant [[piercing]] damage, Ignite rounds are a solid all-around solution to armored or agile opponents, assuming you can pour on the heat.",
        "",
        "Abilities:",
        "",
        "Ignite Bullets",
    ];
    assert(v@.map_values(|s: &str| s@) =~= ignite_bullets_intro());
    lines_of(v)
}

pub fn cyclone_bullets_intro_lines() -> (r: Vec<String>)
    ensures
        string_views(r@) == cyclone_bullets_intro(),
{
    let v = vec![
        "Though lacking some of the raw offensive power of the other ammo, Cyclone bullets provide superb flexibility both in offense and defense",
        "Cyclone abilities place and consume [[Static Charge]] on enemies to knock back or strike with lightning.",
        "",
        "Abilities:",
        "",
        "Cyclone Bullets",
    ];
    assert(v@.map_values(|s: &str| s@) =~= cyclone_bullets_intro());
    lines_of(v)
}

pub fn static_charge_lines() -> (r: Vec<String>)
    ensures
        string_views(r@) == static_charge_text(),
{
    let v = vec![
        "Some abilities charge their targets with high levels of electric charge.",
        "",
        "Other abilities can benefit from this charge may (depending on the skill):",
        "- Strike for additional [[piercing]] damage",
        "- Knock the target back with gale force winds",
    ];
    assert(v@.map_values(|s: &str| s@) =~= static_charge_text());
    lines_of(v)
}

pub fn status_effects_lines() -> (r: Vec<String>)
    ensures
        string_views(r@) == status_effects_text(),
{
    Vec::new()
}

pub fn temperature_lines() -> (r: Vec<String>)
    ensures
        string_views(r@) == temperature_text(),
{
    let mut r: Vec<String> = Vec::new();
    push_line(&mut r, concat3("All characters in ArenaGS have a temperature value which slowly reduces towards ", decimal_string(TEMPERATURE_MIDPOINT).as_str(), "."));
    push_line(&mut r, String::from_str(""));
    push_line(&mut r, String::from_str("Some skills can raise or lower it:"));
    push_line(&mut r, String::from_str(""));
    push_line(&mut r, concat3("- Temperatures above ", decimal_string(TEMPERATURE_BURN_POINT).as_str(), " will ignite a character in flames"));
    push_line(&mut r, concat3(concat3("|tab|- Burning does ", decimal_u32(TEMPERATURE_DAMAGE_PER_TICK).as_str(), " [[piercing]] [[strength]] of damage every ").as_str(), decimal_string(BURN_DURATION).as_str(), " [[ticks]]."));
    push_line(&mut r, concat3("|tab|- Once the temperatures is below ", decimal_string(TEMPERATURE_BURN_POINT).as_str(), " they will quit burning."));
    push_line(&mut r, String::from_str(""));
    push_line(&mut r, concat3("- Temperatures below ", decimal_string(TEMPERATURE_FREEZE_POINT).as_str(), " will freeze a character."));
    push_line(&mut r, String::from_str("|tab|- Movements will cost an additional 50% time ([[ticks]]) to accomplish."));
    assert(string_views(r@) =~= temperature_text());
    r
}

pub fn time_lines() -> (r: Vec<String>)
    ensures
        string_views(r@) == time_text(),
{
    let mut r: Vec<String> = Vec::new();
    push_line(&mut r, String::from_str("Time in ArenaGS is based upon 'ticks', which accumulate until a character can act"));
    push_line(&mut r, String::from_str(""));
    push_line(&mut r, concat3(concat3("By default most actions consume ", decimal_string(BASE_ACTION_COST).as_str(), " ticks and movement ").as_str(), decimal_string(MOVE_ACTION_COST).as_str(), " ticks"));
    push_line(&mut r, String::from_str(""));
    push_line(&mut r, String::from_str("Some status can reduce these costs, allowing more actions to be taken over a period of turns."));
    push_line(&mut r, String::from_str(""));
    push_line(&mut r, String::from_str("A rare few skills are 'instant speed'  - they do not costs ticks to use, allowing the invoker to take another action."));
    assert(string_views(r@) =~= time_text());
    r
}

} // verus!
