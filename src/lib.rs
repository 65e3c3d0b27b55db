//! Game-state core of a two-player tic-tac-toe board: cell placement
//! legality, turn tracking, win and draw detection, and the timed reset
//! that follows the end of a game.
//!
//! Time is handed in by the caller as milliseconds on a monotonic clock.
pub mod grid;
pub mod laws;
pub mod square;

pub use grid::{
    square_position, MouseButton, PointerEvent, TicTacToeGrid, RESET_DELAY_MS, SQUARE_SIZE,
};
pub use square::{PlacementResult, SquareChoice, TicTacToeSquare};
