//! A snake game on a discrete grid: the snake moves one cell per tick, grows
//! when it eats, and the game ends when it runs into itself or leaves a field
//! whose edges are deadly.
//!
//! Everything here is plain state and rules. Drawing, polling for input and
//! waiting between ticks belong to the program that uses this library.

pub mod config;
pub mod direction;
pub mod error;
pub mod field;
pub mod food;
pub mod game;
pub mod grid;
pub mod input;
pub mod laws;
pub mod layout;
pub mod random;
pub mod snake;
