//! Decision engine for a turn-based, grid-world multiplayer snake game.
//!
//! Each turn the engine receives an immutable snapshot of the board
//! (dimensions, food, hazards, every snake's body) and returns one of the
//! four cardinal directions for the controlled snake.  The legality
//! evaluator computes the directions that do not cause immediate death;
//! the strategies (random, opportunist, hungry) narrow that set to a
//! single choice.

pub mod model;
pub mod moves;
pub mod snake_factory;
pub mod utils;
