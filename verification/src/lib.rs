//! The simulation core of a grid snake game.
//!
//! A snake is a chain of segments on a bounded grid. Every frame the player's
//! input is turned into a pending heading, at a fixed cadence the chain moves
//! one cell, food is eaten where the head finds it, and the session ends when
//! the head runs into the body or, on a lethal grid, leaves the grid.
//!
//! Nothing here draws, polls a device or reads a clock: the caller hands in
//! the keys that are held and the time that has passed, and reads the chain,
//! the food and the score back.

pub mod grid;
pub mod heading;
pub mod laws;
pub mod player;
mod random;
pub mod session;
pub mod systems;

pub use grid::{BoundaryPolicy, Grid};
pub use heading::Direction;
pub use player::{BodyPart, Player};
pub use session::{Food, ScoreText, Snake, Trans};
pub use systems::{
    DeathSystem, DirectionSystem, FoodSystem, FrameReport, GameplaySystemBundle, Input, MoveSystem,
};
