//! Player lifecycle core: archetype stats, health and shield tracking, the
//! death system, and the arbiter of the game-over transition.

pub mod character;
pub mod health;
pub mod math;
pub mod player;
pub mod systems;
pub mod transition;
