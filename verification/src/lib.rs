//! Conway's Game of Life on a fixed-size rectangular grid.
//!
//! The [`Grid`] engine owns a rows x columns table of [`CellState`] values,
//! supports stamping a rectangular pattern at an offset, and advances one
//! generation at a time under the classic birth/survival thresholds.
//! Cells on the outermost ring of rows and columns see no neighbours at all,
//! so they can never be born and any live cell there dies on the next tick.

mod grid;
pub mod laws;

pub use grid::CellState;
pub use grid::Grid;
pub use grid::GridError;
pub use grid::Result;
pub use grid::convert_to_pattern;
pub use grid::count_alive;
