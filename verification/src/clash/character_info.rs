use vstd::prelude::*;

use crate::clash::defenses::Defenses;
use crate::clash::temperature::Temperature;

verus! {

/// A character's name, defenses, temperature and skill power.
#[derive(Clone)]
pub struct CharacterInfo {
    pub name: String,
    pub defenses: Defenses,
    pub temperature: Temperature,
    pub skill_power: u32,
}

impl CharacterInfo {
    /// A character with the given name, defenses, temperature and skill power.
    pub fn init(name: &str, defenses: Defenses, temperature: Temperature, skill_power: u32) -> (r: CharacterInfo)
        ensures
            r.name@ == name@,
            r.defenses == defenses,
            r.temperature == temperature,
            r.skill_power == skill_power,
    {
        CharacterInfo { name: String::from_str(name), defenses, temperature, skill_power }
    }
}

/// A character described only by its defenses.
#[derive(Clone)]
pub struct Character {
    pub defenses: Defenses,
}

impl Character {
    /// A character with `defenses`.
    pub fn init(defenses: Defenses) -> (r: Character)
        ensures
            r.defenses == defenses,
    {
        Character { defenses }
    }
}

} // verus!
