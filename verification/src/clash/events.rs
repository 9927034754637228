use vstd::prelude::*;

use crate::atlas::point::SizedPoint;
use crate::clash::combat::BoltKind;
use crate::clash::damage::Damage;

verus! {

/// What a character does once a move it began is over.
#[derive(Clone, Copy)]
pub enum PostMoveAction {
    Nothing,
    /// Shoot the nearest target in range, if any.
    Shoot(Damage, Option<u32>, BoltKind),
    /// Attack the exact target of the character's pending attack.
    Attack,
    /// Take whatever damage waits on the new location.
    CheckNewLocationDamage,
}

/// A move under way: where the character will stand once it is over.
#[derive(Clone, Copy)]
pub struct MovementComponent {
    pub new_position: SizedPoint,
}

impl MovementComponent {
    /// A move towards `new_position`.
    pub fn init(new_position: SizedPoint) -> (r: MovementComponent)
        ensures
            r.new_position == new_position,
    {
        MovementComponent { new_position }
    }
}

} // verus!
