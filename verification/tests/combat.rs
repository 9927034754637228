use arena::atlas::Point;
use arena::clash::combat::{
    damage_field_style, explosion_fields, sustained_field_color, AttackComponent, AttackKind, BoltKind, ConeKind, ExplosionKind, FieldKind,
    OrbKind, WeaponKind,
};
use arena::clash::{Damage, DamageElement};

#[test]
fn attack_kinds() {
    let damage = Damage::init(2, DamageElement::PHYSICAL);
    let melee = AttackComponent::init(Point::init(1, 1), damage, AttackKind::Melee(WeaponKind::Sword), None);
    assert_eq!(WeaponKind::Sword, melee.attack.melee_kind());
    let bolt = AttackComponent::init(Point::init(1, 1), damage, AttackKind::Ranged(BoltKind::Smoke), Some(Point::init(0, 0)));
    assert_eq!(BoltKind::Smoke, bolt.attack.ranged_kind());
    assert_eq!(Some(Point::init(0, 0)), bolt.attack.source);
    let cone = AttackComponent::init(Point::init(1, 1), damage, AttackKind::Cone(ConeKind::Water, 3), None);
    assert_eq!(ConeKind::Water, cone.attack.cone_kind());
    let orb = AttackComponent::init(Point::init(1, 1), damage, AttackKind::Orb(OrbKind::Feather), None);
    assert_eq!(OrbKind::Feather, orb.attack.orb_kind());
    let boom = AttackComponent::init(Point::init(1, 1), damage, AttackKind::Explode(ExplosionKind::Cloud, 2), None);
    assert_eq!(ExplosionKind::Cloud, boom.attack.explode_kind());
}

#[test]
fn field_styles() {
    assert_eq!(((0, 43, 102), ExplosionKind::Water), damage_field_style(FieldKind::Hail));
    assert_eq!((255, 140, 0), sustained_field_color(FieldKind::Fire));
}

#[test]
fn explosion_covers_burst() {
    let fields = explosion_fields(&Point::init(5, 5), 1, (255, 0, 0));
    assert_eq!(5, fields.len());
    assert!(fields.iter().all(|f| f.1 == (255, 0, 0, 140)));
    assert!(fields.contains(&(Some(Point::init(5, 4)), (255, 0, 0, 140))));
    assert!(fields.contains(&(Some(Point::init(5, 5)), (255, 0, 0, 140))));
    assert_eq!(1, explosion_fields(&Point::init(5, 5), 0, (1, 2, 3)).len());
}
