//! How the game is held in memory.
pub mod board;
