//! A chess board in its starting position: the pieces on their squares, the
//! lookup of squares by algebraic label, and the board as terminal text.

pub mod board;
pub mod census;
pub mod coords;
pub mod piece;
pub mod render;
pub mod setup;
pub mod shape;
pub mod style;
pub mod text;

pub use board::Board;
pub use piece::{Piece, PieceColor, PieceType, Square};
pub use setup::create_squares;
