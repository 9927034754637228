//! Rules and geometry of a small turn-based tactics game: map points and
//! directions, timers, damage and defenses, temperature, status effects,
//! turn order and character progression.

pub mod assoc;
pub mod atlas;
pub mod clash;
pub mod text;
