//! A falling-block puzzle engine: board, pieces, rotation tables, gravity,
//! line clearing and the timer-driven game loop, with machine-checked contracts.
//!
//! [`Tetris`] is the engine. Its contracts are stated on [`model::State`],
//! the game as plain values; the modules `motion`, `preview` and `frames`
//! hold what is proved of that model.

pub mod cell;
pub mod direction;
pub mod frames;
pub mod grid;
pub mod input;
pub mod model;
pub mod motion;
pub mod piece;
pub mod preview;
pub mod random;
pub mod render;
pub mod tetris;
pub mod tetromino;
pub mod v2;

pub use crate::cell::Cell;
pub use crate::direction::Direction;
pub use crate::input::{Command, GameInput};
pub use crate::model::{SpawningError, Turn};
pub use crate::piece::Piece;
pub use crate::tetris::Tetris;
pub use crate::tetromino::{Shape, Tetromino};
pub use crate::v2::V2;
