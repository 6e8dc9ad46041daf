//! The simulation core of a snake game on a bordered grid: the body as an
//! ordered sequence of cells, movement, growth, collisions, food and score.
//!
//! Every function states what it computes in its contract, and the contracts
//! are proved. Drawing and keyboard handling live outside this library; it
//! hands out plain values and takes plain values back.

pub mod config;
pub mod driver;
pub mod food;
pub mod game;
pub mod geometry;
pub mod laws;
pub mod snake;
