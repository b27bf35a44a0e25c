//! Core of a snake simulation on a toroidal grid: wrap-around movement,
//! self-collision detection, food consumption, and three move-selection
//! strategies (random survivable walk, greedy distance-minimizing walk,
//! and a deterministic angle heuristic).
//!
//! The crate is driven tick by tick by an external loop that owns
//! rendering, pacing and option selection; no I/O happens here.

pub mod grid;
pub mod rng;
pub mod sim;
pub mod snake;
pub mod strategy;

pub use grid::Direction;
pub use rng::SimRng;
pub use sim::Strategy;
pub use sim::TickResult;
pub use sim::tick;
pub use snake::Snake;
pub use grid::Field;
pub use grid::Food;
pub use grid::Pos;
