use vstd::prelude::*;

verus! {

/// What happens when a delayed effect comes due.
#[derive(Clone, Copy, Debug, PartialEq, Eq, Structural)]
pub enum DelayedEffectKind {
    Move,
    ApplyBolt,
    ApplyMelee,
    NoEffect,
}

/// An effect that comes due on a later animation frame.
#[derive(Clone, Copy, Debug)]
pub struct DelayedEffect {
    kind: DelayedEffectKind,
    target_frame: u64,
}

impl DelayedEffect {
    /// What happens when the effect comes due.
    pub closed spec fn spec_kind(&self) -> DelayedEffectKind {
        self.kind
    }

    /// The frame the effect comes due on.
    pub closed spec fn spec_target_frame(&self) -> u64 {
        self.target_frame
    }

    /// An effect of `kind` that comes due `delta_frame` frames after `frame`.
    pub fn init(kind: DelayedEffectKind, frame: u64, delta_frame: u64) -> (r: DelayedEffect)
        requires
            frame + delta_frame <= u64::MAX,
        ensures
            r.spec_kind() == kind,
            r.spec_target_frame() == frame + delta_frame,
    {
        DelayedEffect { kind, target_frame: frame + delta_frame }
    }

    /// What happens when the effect comes due.
    pub fn kind(&self) -> (r: DelayedEffectKind)
        ensures
            r == self.spec_kind(),
    {
        self.kind
    }

    /// Whether the effect is due on `frame` (or was already).
    pub fn is_on_frame(&self, frame: u64) -> (r: bool)
        ensures
            r == (self.spec_target_frame() <= frame),
    {
        self.target_frame <= frame
    }
}

/// A delayed effect carried by an entity of the battle.
#[derive(Clone, Copy, Debug)]
pub struct DelayedEffectComponent {
    pub effect: DelayedEffect,
}

impl DelayedEffectComponent {
    /// A component carrying `effect`.
    pub fn init(effect: DelayedEffect) -> (r: DelayedEffectComponent)
        ensures
            r.effect == effect,
    {
        DelayedEffectComponent { effect }
    }
}

/// The entities of `pending` whose effects are due on `frame`, with what
/// each effect does, in order.
pub open spec fn spec_due_effects<E>(pending: Seq<(E, DelayedEffect)>, frame: u64) -> Seq<(E, DelayedEffectKind)>
    decreases pending.len(),
{
    if pending.len() == 0 {
        Seq::empty()
    } else {
        let rest = spec_due_effects(pending.drop_last(), frame);
        let last = pending.last();
        if last.1.spec_target_frame() <= frame {
            rest.push((last.0, last.1.spec_kind()))
        } else {
            rest
        }
    }
}

/// The entities whose effects are due on `frame`, with what each effect
/// does, in order.
pub fn due_effects<E: Copy>(pending: &Vec<(E, DelayedEffect)>, frame: u64) -> (r: Vec<(E, DelayedEffectKind)>)
    ensures
        r@ == spec_due_effects(pending@, frame),
{
    let mut due: Vec<(E, DelayedEffectKind)> = Vec::new();
    let mut k: usize = 0;
    while k < pending.len()
        invariant
            k <= pending@.len(),
            due@ == spec_due_effects(pending@.take(k as int), frame),
        decreases pending@.len() - k,
    {
        assert(pending@.take(k + 1).drop_last() =~= pending@.take(k as int));
        let (entity, effect) = pending[k];
        if effect.is_on_frame(frame) {
            due.push((entity, effect.kind()));
        }
        k = k + 1;
    }
    assert(pending@.take(k as int) =~= pending@);
    due
}

} // verus!
