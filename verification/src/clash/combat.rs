use vstd::prelude::*;

use crate::atlas::point::{lex_lt, Point};
use crate::clash::damage::Damage;

verus! {

/// What a character, or a creature summoned in battle, is.
#[derive(Clone, Copy, Debug, PartialEq, Eq, Structural)]
pub enum SpawnKind {
    Player,
    Bird,
    BirdSpawn,
    Egg,
    WaterElemental,
    FireElemental,
    WindElemental,
    EarthElemental,
    Elementalist,
    SimpleGolem,
    ShadowGunSlinger,
}

/// What a field does where it lands: damage in a burst of the given size,
/// a creature, or damage every turn for the given duration.
#[derive(Clone, Copy)]
pub enum FieldEffect {
    Damage(Damage, u32),
    Spawn(SpawnKind),
    SustainedDamage(Damage, u32),
}

/// The look of a field.
#[derive(Clone, Copy, Debug, PartialEq, Eq, Structural)]
pub enum FieldKind {
    Fire,
    Hail,
    Lightning,
}

/// The look of a cone attack.
#[derive(Clone, Copy, Debug, PartialEq, Eq, Structural)]
pub enum ConeKind {
    Fire,
    Water,
}

/// The look of a bolt.
#[derive(Clone, Copy, Debug, PartialEq, Eq, Structural)]
pub enum BoltKind {
    Fire,
    Water,
    Lightning,
    Bullet,
    FireBullet,
    AirBullet,
    Smoke,
}

/// The look of a melee attack.
#[derive(Clone, Copy, Debug, PartialEq, Eq, Structural)]
pub enum WeaponKind {
    Sword,
}

/// The look of an orb.
#[derive(Clone, Copy, Debug, PartialEq, Eq, Structural)]
pub enum OrbKind {
    Feather,
}

/// The look of an explosion.
#[derive(Clone, Copy, Debug, PartialEq, Eq, Structural)]
pub enum ExplosionKind {
    Fire,
    Bomb,
    Lightning,
    Cloud,
    Water,
}

/// How an attack is delivered: a bolt, a melee strike, a cone of the given
/// size, an explosion of the given size, a field's damage tick, or an orb.
#[derive(Clone, Copy, Debug, PartialEq, Eq, Structural)]
pub enum AttackKind {
    Ranged(BoltKind),
    Melee(WeaponKind),
    Cone(ConeKind, u32),
    Explode(ExplosionKind, u32),
    DamageTick,
    Orb(OrbKind),
}

/// An attack under way: its damage, its target, how it is delivered and
/// where it comes from.
#[derive(Clone, Copy)]
pub struct AttackInfo {
    pub damage: Damage,
    pub target: Point,
    pub kind: AttackKind,
    pub source: Option<Point>,
}

impl AttackInfo {
    /// The weapon of a melee attack.
    pub fn melee_kind(&self) -> (r: WeaponKind)
        requires
            self.kind is Melee,
        ensures
            self.kind == AttackKind::Melee(r),
    {
        match self.kind {
            AttackKind::Melee(kind) => kind,
            _ => WeaponKind::Sword,
        }
    }

    /// The bolt of a ranged attack.
    pub fn ranged_kind(&self) -> (r: BoltKind)
        requires
            self.kind is Ranged,
        ensures
            self.kind == AttackKind::Ranged(r),
    {
        match self.kind {
            AttackKind::Ranged(kind) => kind,
            _ => BoltKind::Bullet,
        }
    }

    /// The look of a cone attack.
    pub fn cone_kind(&self) -> (r: ConeKind)
        requires
            self.kind is Cone,
        ensures
            self.kind matches AttackKind::Cone(k, _) && k == r,
    {
        match self.kind {
            AttackKind::Cone(kind, _) => kind,
            _ => ConeKind::Fire,
        }
    }

    /// The look of an orb attack.
    pub fn orb_kind(&self) -> (r: OrbKind)
        requires
            self.kind is Orb,
        ensures
            self.kind == AttackKind::Orb(r),
    {
        match self.kind {
            AttackKind::Orb(kind) => kind,
            _ => OrbKind::Feather,
        }
    }

    /// The look of an explosion.
    pub fn explode_kind(&self) -> (r: ExplosionKind)
        requires
            self.kind is Explode,
        ensures
            self.kind matches AttackKind::Explode(k, _) && k == r,
    {
        match self.kind {
            AttackKind::Explode(kind, _) => kind,
            _ => ExplosionKind::Fire,
        }
    }
}

/// An attack carried by an entity of the battle.
#[derive(Clone, Copy)]
pub struct AttackComponent {
    pub attack: AttackInfo,
}

impl AttackComponent {
    /// An attack of `damage` on `target`, delivered as `kind`, from `source`.
    pub fn init(target: Point, damage: Damage, kind: AttackKind, source: Option<Point>) -> (r: AttackComponent)
        ensures
            r.attack.target == target,
            r.attack.damage == damage,
            r.attack.kind == kind,
            r.attack.source == source,
    {
        AttackComponent { attack: AttackInfo { target, damage, kind, source } }
    }
}

/// The colour and explosion of a damage field of kind `kind`.
pub open spec fn spec_damage_field_style(kind: FieldKind) -> ((u8, u8, u8), ExplosionKind) {
    match kind {
        FieldKind::Fire => ((255u8, 0u8, 0u8), ExplosionKind::Fire),
        FieldKind::Hail => ((0u8, 43u8, 102u8), ExplosionKind::Water),
        FieldKind::Lightning => ((166u8, 171u8, 35u8), ExplosionKind::Lightning),
    }
}

/// The colour and explosion of a damage field of kind `kind`.
pub fn damage_field_style(kind: FieldKind) -> (r: ((u8, u8, u8), ExplosionKind))
    ensures
        r == spec_damage_field_style(kind),
{
    match kind {
        FieldKind::Fire => ((255, 0, 0), ExplosionKind::Fire),
        FieldKind::Hail => ((0, 43, 102), ExplosionKind::Water),
        FieldKind::Lightning => ((166, 171, 35), ExplosionKind::Lightning),
    }
}

/// The colour of a lasting damage field of kind `kind`.
pub fn sustained_field_color(kind: FieldKind) -> (r: (u8, u8, u8))
    ensures
        r == match kind {
            FieldKind::Fire => (255u8, 140u8, 0u8),
            FieldKind::Hail => (0u8, 42u8, 102u8),
            FieldKind::Lightning => (166u8, 171u8, 35u8),
        },
{
    match kind {
        FieldKind::Fire => (255, 140, 0),
        FieldKind::Hail => (0, 42, 102),
        FieldKind::Lightning => (166, 171, 35),
    }
}

/// The fields an explosion of `size` around `center` marks, in the colour
/// `color`: one per point of the burst, in the burst's order.
pub fn explosion_fields(center: &Point, size: u32, color: (u8, u8, u8)) -> (r: Vec<(Option<Point>, (u8, u8, u8, u8))>)
    requires
        center.burst_fits(size),
    ensures
        size > 0x80000000 ==> r@.len() == 0,
        size < 0x40000000 ==> {
            &&& forall|k: int|
                0 <= k < r@.len() ==> (#[trigger] r@[k]).1 == (color.0, color.1, color.2, 140u8) && r@[k].0 is Some
                    && center.in_burst(size as int, r@[k].0.unwrap())
            &&& forall|p: Point| center.in_burst(size as int, p) ==> r@.contains((Some(p), (color.0, color.1, color.2, 140u8)))
            &&& forall|a: int, b: int|
                0 <= a < b < r@.len() ==> lex_lt((#[trigger] r@[a]).0.unwrap(), (#[trigger] r@[b]).0.unwrap())
        },
{
    let burst = center.get_burst(size);
    let mut fields: Vec<(Option<Point>, (u8, u8, u8, u8))> = Vec::new();
    let mut k: usize = 0;
    while k < burst.len()
        invariant
            k <= burst@.len(),
            fields@.len() == k,
            forall|j: int| 0 <= j < k ==> #[trigger] fields@[j] == (Some(burst@[j]), (color.0, color.1, color.2, 140u8)),
        decreases burst@.len() - k,
    {
        fields.push((Some(burst[k]), (color.0, color.1, color.2, 140)));
        k = k + 1;
    }
    proof {
        if size < 0x40000000 {
            assert forall|p: Point| center.in_burst(size as int, p) implies fields@.contains((Some(p), (color.0, color.1, color.2, 140u8))) by {
                let j = choose|j: int| 0 <= j < burst@.len() && burst@[j] == p;
                assert(fields@[j] == (Some(p), (color.0, color.1, color.2, 140u8)));
            }
        }
    }
    fields
}

} // verus!
