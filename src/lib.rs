//! Conway's Game of Life on a bounded rectangular grid.

pub mod cell;
pub mod cli;
pub mod game;
pub mod grid;
pub mod laws;
mod random;

pub use cell::Cell;
pub use cli::Args;
pub use game::{GameOfLife, GridError};
