use arena::clash::delayed_effect::{due_effects, DelayedEffect, DelayedEffectComponent, DelayedEffectKind};

#[test]
fn removed_on_tick() {
    let pending = vec![(7u32, DelayedEffectComponent::init(DelayedEffect::init(DelayedEffectKind::NoEffect, 0, 10)).effect)];
    for i in 0..10 {
        assert_eq!(0, due_effects(&pending, i).len());
    }
    assert_eq!(vec![(7u32, DelayedEffectKind::NoEffect)], due_effects(&pending, 10));
}

#[test]
fn removed_if_past_tick() {
    let pending = vec![(7u32, DelayedEffect::init(DelayedEffectKind::NoEffect, 0, 10))];
    assert_eq!(1, due_effects(&pending, 12).len());
}

#[test]
fn due_effects_keep_order() {
    let pending = vec![
        (1u32, DelayedEffect::init(DelayedEffectKind::Move, 5, 1)),
        (2u32, DelayedEffect::init(DelayedEffectKind::ApplyBolt, 5, 9)),
        (3u32, DelayedEffect::init(DelayedEffectKind::ApplyMelee, 0, 2)),
    ];
    assert_eq!(vec![(1u32, DelayedEffectKind::Move), (3u32, DelayedEffectKind::ApplyMelee)], due_effects(&pending, 8));
    assert!(pending[1].1.is_on_frame(14));
    assert_eq!(DelayedEffectKind::ApplyBolt, pending[1].1.kind());
}
