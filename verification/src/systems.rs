//! The systems that make up one frame of the game, in the order in which
//! they run: direction, movement, food, death.

pub mod bundle;
pub mod death;
pub mod direction;
pub mod food;
pub mod movement;

pub use bundle::{FrameReport, GameplaySystemBundle};
pub use death::DeathSystem;
pub use direction::{DirectionSystem, Input};
pub use food::FoodSystem;
pub use movement::MoveSystem;
