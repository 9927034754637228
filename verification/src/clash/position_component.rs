use vstd::prelude::*;

use crate::atlas::{Point, SizedPoint};

verus! {

/// Where a character or object stands.
#[derive(Hash, PartialEq, Eq, Structural, Clone, Copy)]
pub struct PositionComponent {
    pub position: SizedPoint,
}

impl PositionComponent {
    /// A position at `position`.
    pub fn init(position: SizedPoint) -> (r: PositionComponent)
        ensures
            r.position == position,
    {
        PositionComponent { position }
    }

    /// Moves the origin to `point`, keeping the size.
    pub fn move_to(&mut self, point: Point)
        ensures
            final(self).position == (SizedPoint { origin: point, width: old(self).position.width, height: old(self).position.height }),
    {
        self.position = self.position.move_to(point);
    }
}

} // verus!
