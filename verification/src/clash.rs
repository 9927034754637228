pub mod ai;
pub mod battle;
pub mod character_info;
pub mod combat;
pub mod content;
pub mod damage;
pub mod delayed_effect;
pub mod events;
pub mod defenses;
pub mod direction;
pub mod help;
pub mod log;
pub mod map;
pub mod orb;
pub mod physics;
pub mod position_component;
pub mod status;
pub mod strength;
pub mod temperature;
pub mod tick_timer;
pub mod time;

pub use character_info::{Character, CharacterInfo};
pub use damage::{
    damage_reactions, hit_count, knockback_destination, Damage, DamageElement, DamageOptions, DamageReactions, RolledDamage,
    ARMORED_ADDITIONAL_ARMOR, STATIC_CHARGE_DAMAGE,
};
pub use defenses::{Defenses, Resistances};
pub use log::{Log, LOG_COUNT};
pub use map::{element_at_location, GameMap, HitTestEntity, MapHitTestResult, MapTile, MAX_MAP_TILES, MAX_MAP_TILES_SIZED};
pub use position_component::PositionComponent;
pub use status::{StatusKind, StatusStore, StatusType};
pub use strength::{Strength, STRENGTH_DICE_SIDES};
pub use temperature::{Temperature, TemperatureDirection};
pub use tick_timer::TickTimer;
pub use time::{TimeComponent, BASE_ACTION_COST, MOVE_ACTION_COST};
pub mod progression;
pub mod skill_resources;
pub mod skills;
pub use skill_resources::{
    pay_for_skill, remaining_usages, spend_cooldown, usable_result, AmmoTable, Cooldowns, SkillResources, SkillsResource, UsableResults,
};
pub use skills::{
    adrenaline_gain, has_resources_for_skill, skill_needs_target_point, skill_secondary_range, within_skill_range, AmmoInfo, AmmoKind,
    SkillEffect, SkillInfo, TargetType,
};
