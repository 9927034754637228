pub mod equipment;
pub mod progression_component;

pub use equipment::{Equipment, EquipmentEffect, EquipmentItem, EquipmentKinds, EquipmentRarity, EquipmentResource};
pub use progression_component::{CharacterWeaponKind, NameSet, ProgressionComponent, ProgressionState};
pub mod sales;

pub use sales::{can_purchase_expansion, can_purchase_selection, purchase_expansion, purchase_selection, selection_cost, EXPANSION_COST};
pub mod skill_tree;

pub use skill_tree::{SkillNodeStatus, SkillTree, SkillTreeContents, SkillTreeNode};
pub mod gambler;

pub use gambler::{downgrade_counts, get_random_items, get_reward_request, tally_rewards};
pub mod embattle;

pub use embattle::{
    collect_attack_modes, collect_attack_skills, collect_defense_modifier, collect_effects, collect_resource_modifier, get_player_resources,
};
