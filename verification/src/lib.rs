//! Simulation core of a 2D side-scrolling game: acceleration-based player
//! movement with level-boundary clamping, velocity-gated sprite animation,
//! a camera that tracks the player within the level, and the game-flow state
//! machine (Loading -> MainMenu -> Playing) that gates which systems run.
//!
//! All quantities are fixed-point integers: positions in micro-units,
//! velocities in milli-units per second, time in milliseconds. This keeps
//! every tick exact and lets each system carry a full functional contract.

pub mod config;
pub mod game_flow;
pub mod player;
pub mod world;
