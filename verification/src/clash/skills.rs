use vstd::prelude::*;

use crate::clash::combat::{BoltKind, ConeKind, FieldEffect, FieldKind, OrbKind, SpawnKind, WeaponKind};
use crate::clash::damage::Damage;
use crate::clash::status::StatusKind;

verus! {

/// The kinds of ammunition and charge that skills spend.
#[derive(Clone, Copy, PartialEq, Eq, Structural, Hash, Debug)]
pub enum AmmoKind {
    Bullets,
    Eggs,
    Feathers,
    Charge,
    Adrenaline,
}

/// What a skill spends per use: a kind of ammunition and how much of it.
#[derive(Clone, Copy, PartialEq, Eq, Structural, Debug)]
pub struct AmmoInfo {
    pub kind: AmmoKind,
    pub usage: u32,
}

/// What a skill may be aimed at.
#[derive(Clone, Copy, PartialEq, Eq, Structural, Debug)]
pub enum TargetType {
    NoTarget,
    Tile,
    Player,
    Enemy,
    Any,
    AnyoneButSelf,
}

/// What using a skill does.
pub enum SkillEffect {
    NoEffect,
    Move,
    RangedAttack(Damage, BoltKind),
    MeleeAttack(Damage, WeaponKind),
    ConeAttack(Damage, ConeKind, u32),
    ChargeAttack(Damage, WeaponKind),
    Reload(AmmoKind),
    ReloadSome(AmmoKind, u32),
    ReloadSomeRandom(AmmoKind, u32),
    Field(FieldEffect, FieldKind),
    MoveAndShoot(Damage, Option<u32>, BoltKind),
    ReloadAndRotateAmmo,
    Buff(StatusKind, i32),
    Orb(Damage, OrbKind, u32, u32),
    Spawn(SpawnKind),
    SpawnReplace(SpawnKind),
    Sequence(Box<SkillEffect>, Box<SkillEffect>),
}

/// The adrenaline a skill with `effect` earns its user.
pub open spec fn spec_adrenaline_gain(effect: SkillEffect) -> u32 {
    match effect {
        SkillEffect::Move => 1,
        SkillEffect::MoveAndShoot(..) | SkillEffect::RangedAttack(..) | SkillEffect::MeleeAttack(..) | SkillEffect::ConeAttack(..)
        | SkillEffect::ChargeAttack(..) | SkillEffect::Orb(..) => 6,
        SkillEffect::Reload(..) | SkillEffect::ReloadSome(..) | SkillEffect::Field(..) | SkillEffect::Spawn(..)
        | SkillEffect::ReloadSomeRandom(..) | SkillEffect::ReloadAndRotateAmmo | SkillEffect::Buff(..) => 3,
        SkillEffect::NoEffect | SkillEffect::SpawnReplace(..) | SkillEffect::Sequence(..) => 0,
    }
}

/// The adrenaline a skill with `effect` earns its user: a step earns one,
/// an attack six, other actions three, and a sequence, a replacing spawn or
/// nothing at all earn none.
pub fn adrenaline_gain(effect: &SkillEffect) -> (r: u32)
    ensures
        r == spec_adrenaline_gain(*effect),
{
    match effect {
        SkillEffect::Move => 1,
        SkillEffect::MoveAndShoot(_, _, _) => 6,
        SkillEffect::RangedAttack(_, _) => 6,
        SkillEffect::MeleeAttack(_, _) => 6,
        SkillEffect::ConeAttack(_, _, _) => 6,
        SkillEffect::ChargeAttack(_, _) => 6,
        SkillEffect::Orb(_, _, _, _) => 6,
        SkillEffect::Reload(_) => 3,
        SkillEffect::ReloadSome(_, _) => 3,
        SkillEffect::Field(_, _) => 3,
        SkillEffect::Spawn(_) => 3,
        SkillEffect::ReloadSomeRandom(_, _) => 3,
        SkillEffect::ReloadAndRotateAmmo => 3,
        SkillEffect::Buff(_, _) => 3,
        SkillEffect::NoEffect => 0,
        SkillEffect::SpawnReplace(_) => 0,
        SkillEffect::Sequence(_, _) => 0,
    }
}

/// What each kind of action earns: a step earns one; an attack earns six;
/// every reload earns the same three as any other action that is neither a
/// step nor an attack; and only doing nothing, a replacing spawn or a
/// sequence earn nothing.
pub proof fn lemma_adrenaline_by_kind(effect: SkillEffect)
    ensures
        (effect is Move) ==> spec_adrenaline_gain(effect) == 1,
        (effect is MoveAndShoot || effect is RangedAttack || effect is MeleeAttack || effect is ConeAttack || effect is ChargeAttack
            || effect is Orb) ==> spec_adrenaline_gain(effect) == 6,
        (effect is Reload || effect is ReloadSome || effect is ReloadSomeRandom || effect is ReloadAndRotateAmmo)
            ==> spec_adrenaline_gain(effect) == 3,
        (effect is Field || effect is Spawn || effect is Buff) ==> spec_adrenaline_gain(effect) == 3,
        spec_adrenaline_gain(effect) == 0 <==> (effect is NoEffect || effect is SpawnReplace || effect is Sequence),
{
}

/// How far a skill with `effect` shoots after moving, if it does.
pub fn skill_secondary_range(effect: &SkillEffect) -> (r: Option<u32>)
    ensures
        r == match *effect {
            SkillEffect::MoveAndShoot(_, range, _) => range,
            _ => None,
        },
{
    match effect {
        SkillEffect::MoveAndShoot(_, range, _) => *range,
        _ => None,
    }
}

impl SkillEffect {
    /// A copy of this effect.
    pub fn duplicate(&self) -> (r: SkillEffect)
        ensures
            r == *self,
        decreases self,
    {
        match self {
            SkillEffect::NoEffect => SkillEffect::NoEffect,
            SkillEffect::Move => SkillEffect::Move,
            SkillEffect::RangedAttack(d, k) => SkillEffect::RangedAttack(*d, *k),
            SkillEffect::MeleeAttack(d, k) => SkillEffect::MeleeAttack(*d, *k),
            SkillEffect::ConeAttack(d, k, size) => SkillEffect::ConeAttack(*d, *k, *size),
            SkillEffect::ChargeAttack(d, k) => SkillEffect::ChargeAttack(*d, *k),
            SkillEffect::Reload(kind) => SkillEffect::Reload(*kind),
            SkillEffect::ReloadSome(kind, amount) => SkillEffect::ReloadSome(*kind, *amount),
            SkillEffect::ReloadSomeRandom(kind, amount) => SkillEffect::ReloadSomeRandom(*kind, *amount),
            SkillEffect::Field(effect, kind) => SkillEffect::Field(*effect, *kind),
            SkillEffect::MoveAndShoot(d, range, k) => SkillEffect::MoveAndShoot(*d, *range, *k),
            SkillEffect::ReloadAndRotateAmmo => SkillEffect::ReloadAndRotateAmmo,
            SkillEffect::Buff(kind, duration) => SkillEffect::Buff(*kind, *duration),
            SkillEffect::Orb(d, k, speed, duration) => SkillEffect::Orb(*d, *k, *speed, *duration),
            SkillEffect::Spawn(kind) => SkillEffect::Spawn(*kind),
            SkillEffect::SpawnReplace(kind) => SkillEffect::SpawnReplace(*kind),
            SkillEffect::Sequence(first, second) => SkillEffect::Sequence(
                Box::new(first.duplicate()),
                Box::new(second.duplicate()),
            ),
        }
    }
}

/// A skill: its name and image, what it targets and does, how far it
/// reaches, and what it costs. Exhaustion and focus costs are counted in
/// hundredths of a point.
pub struct SkillInfo {
    pub name: &'static str,
    pub image: Option<&'static str>,
    pub target: TargetType,
    pub effect: SkillEffect,
    pub range: Option<u32>,
    pub must_be_clear: bool,
    pub ammo_info: Option<AmmoInfo>,
    pub alternate: Option<&'static str>,
    pub exhaustion: Option<u32>,
    pub focus_use: Option<u32>,
    pub cooldown: Option<u32>,
    pub start_cooldown_spent: bool,
    pub no_time: bool,
}

impl SkillInfo {
    /// A skill with no range limit that needs no clear line.
    pub fn init(name: &'static str, image: Option<&'static str>, target: TargetType, effect: SkillEffect) -> (r: SkillInfo)
        ensures
            r == SkillInfo::spec_init_with_distance(name, image, target, effect, None, false),
    {
        SkillInfo::init_with_distance(name, image, target, effect, None, false)
    }

    /// This skill spending `usage` of `kind` per use.
    pub open spec fn spec_with_ammo(self, kind: AmmoKind, usage: u32) -> SkillInfo {
        SkillInfo { ammo_info: Some(AmmoInfo { kind, usage }), ..self }
    }

    /// This skill waiting `cooldown` ticks between uses.
    pub open spec fn spec_with_cooldown(self, cooldown: u32) -> SkillInfo {
        SkillInfo { cooldown: Some(cooldown), ..self }
    }

    /// This skill starting with its cooldown to wait out.
    pub open spec fn spec_with_cooldown_spent(self) -> SkillInfo {
        SkillInfo { start_cooldown_spent: true, ..self }
    }

    /// A skill with no range limit that needs no clear line.
    pub open spec fn spec_init(name: &'static str, image: Option<&'static str>, target: TargetType, effect: SkillEffect) -> SkillInfo {
        SkillInfo::spec_init_with_distance(name, image, target, effect, None, false)
    }

    /// A skill reaching `range` (no limit for `None`), needing a clear line
    /// when `must_be_clear`, and costing nothing.
    pub open spec fn spec_init_with_distance(
        name: &'static str,
        image: Option<&'static str>,
        target: TargetType,
        effect: SkillEffect,
        range: Option<u32>,
        must_be_clear: bool,
    ) -> SkillInfo {
        SkillInfo {
            name,
            image,
            target,
            effect,
            range,
            must_be_clear,
            ammo_info: None,
            alternate: None,
            exhaustion: None,
            focus_use: None,
            cooldown: None,
            start_cooldown_spent: false,
            no_time: false,
        }
    }

    /// A skill reaching `range` (no limit for `None`), needing a clear line
    /// when `must_be_clear`, and costing nothing.
    pub fn init_with_distance(
        name: &'static str,
        image: Option<&'static str>,
        target: TargetType,
        effect: SkillEffect,
        range: Option<u32>,
        must_be_clear: bool,
    ) -> (r: SkillInfo)
        ensures
            r == SkillInfo::spec_init_with_distance(name, image, target, effect, range, must_be_clear),
    {
        SkillInfo {
            name,
            image,
            target,
            effect,
            range,
            must_be_clear,
            ammo_info: None,
            alternate: None,
            exhaustion: None,
            focus_use: None,
            cooldown: None,
            start_cooldown_spent: false,
            no_time: false,
        }
    }

    /// This skill spending `usage` of `kind` per use.
    pub fn with_ammo(self, kind: AmmoKind, usage: u32) -> (r: SkillInfo)
        ensures
            r == (SkillInfo { ammo_info: Some(AmmoInfo { kind, usage }), ..self }),
    {
        SkillInfo { ammo_info: Some(AmmoInfo { kind, usage }), ..self }
    }

    /// This skill with `skill_name` as the skill used in its place.
    pub fn with_alternate(self, skill_name: &'static str) -> (r: SkillInfo)
        ensures
            r == (SkillInfo { alternate: Some(skill_name), ..self }),
    {
        SkillInfo { alternate: Some(skill_name), ..self }
    }

    /// This skill costing `exhaustion` hundredths of exhaustion per use.
    pub fn with_exhaustion(self, exhaustion: u32) -> (r: SkillInfo)
        ensures
            r == (SkillInfo { exhaustion: Some(exhaustion), ..self }),
    {
        SkillInfo { exhaustion: Some(exhaustion), ..self }
    }

    /// This skill costing `focus` hundredths of focus per use.
    pub fn with_focus_use(self, focus: u32) -> (r: SkillInfo)
        ensures
            r == (SkillInfo { focus_use: Some(focus), ..self }),
    {
        SkillInfo { focus_use: Some(focus), ..self }
    }

    /// This skill taking no time to use.
    pub fn with_no_time(self) -> (r: SkillInfo)
        ensures
            r == (SkillInfo { no_time: true, ..self }),
    {
        SkillInfo { no_time: true, ..self }
    }

    /// This skill waiting `cooldown` ticks between uses.
    pub fn with_cooldown(self, cooldown: u32) -> (r: SkillInfo)
        ensures
            r == (SkillInfo { cooldown: Some(cooldown), ..self }),
    {
        SkillInfo { cooldown: Some(cooldown), ..self }
    }

    /// This skill starting with its cooldown to wait out.
    pub fn with_cooldown_spent(self) -> (r: SkillInfo)
        ensures
            r == (SkillInfo { start_cooldown_spent: true, ..self }),
    {
        SkillInfo { start_cooldown_spent: true, ..self }
    }

    /// Whether aiming the skill shows a trail: exactly when it needs a
    /// clear line.
    pub fn show_trail(&self) -> (r: bool)
        ensures
            r == self.must_be_clear,
    {
        self.must_be_clear
    }

    /// A copy of this skill.
    pub fn duplicate(&self) -> (r: SkillInfo)
        ensures
            r == *self,
    {
        SkillInfo {
            name: self.name,
            image: self.image,
            target: self.target,
            effect: self.effect.duplicate(),
            range: self.range,
            must_be_clear: self.must_be_clear,
            ammo_info: self.ammo_info,
            alternate: self.alternate,
            exhaustion: self.exhaustion,
            focus_use: self.focus_use,
            cooldown: self.cooldown,
            start_cooldown_spent: self.start_cooldown_spent,
            no_time: self.no_time,
        }
    }
}

/// Whether a skill aimed as `target` needs a target point: all but the
/// untargeted ones do.
pub fn skill_needs_target_point(target: TargetType) -> (r: bool)
    ensures
        r == !(target is NoTarget),
{
    match target {
        TargetType::NoTarget => false,
        TargetType::AnyoneButSelf | TargetType::Tile | TargetType::Enemy | TargetType::Player | TargetType::Any => true,
    }
}

/// Whether a target at `distance` (`None` where none could be measured) is
/// within a skill's reach `skill_range` (`None` for no limit).
pub fn within_skill_range(skill_range: Option<u32>, distance: Option<u32>) -> (r: bool)
    ensures
        r == match (skill_range, distance) {
            (Some(reach), Some(d)) => d <= reach,
            _ => true,
        },
{
    if let Some(reach) = skill_range {
        if let Some(d) = distance {
            if d > reach {
                return false;
            }
        }
    }
    true
}

/// Whether a skill with `remaining_usages` uses left (`None` for no limit)
/// and `cooldown` ticks of cooldown left has what it needs to be used.
pub fn has_resources_for_skill(remaining_usages: Option<u32>, cooldown: u32) -> (r: bool)
    ensures
        r == ((match remaining_usages {
            Some(left) => left > 0,
            None => true,
        }) && cooldown == 0),
{
    let has_needed_ammo = match remaining_usages {
        Some(left) => left > 0,
        None => true,
    };
    has_needed_ammo && cooldown == 0
}

} // verus!
