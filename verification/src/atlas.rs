pub mod direction;
pub mod point;

pub use direction::Direction;
pub use point::{Point, SizedPoint, MAX_POINT_SIZE};
