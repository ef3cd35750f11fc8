//! Pieces, squares and the letters that stand for them in text.

use vstd::prelude::*;

verus! {

/// The six kinds of chess piece.
#[derive(Clone, Copy, Debug, PartialEq, Eq, Structural)]
pub enum PieceType {
    King,
    Queen,
    Rook,
    Bishop,
    Knight,
    Pawn,
}

/// The side a piece belongs to.
#[derive(Clone, Copy, Debug, PartialEq, Eq, Structural)]
pub enum PieceColor {
    White,
    Black,
}

/// A piece: its kind and its side.
#[derive(Clone, Copy, Debug, PartialEq, Eq, Structural)]
pub struct Piece {
    pub piece_type: PieceType,
    pub color: PieceColor,
}

/// One square of the board, empty or holding a piece.
#[derive(Clone, Copy, Debug, PartialEq, Eq)]
pub struct Square {
    pub piece: Option<Piece>,
}

impl PieceType {
    /// The upper-case letter of a kind: K, Q, R, B, N or P.
    pub open spec fn letter(self) -> char {
        match self {
            PieceType::King => 'K',
            PieceType::Queen => 'Q',
            PieceType::Rook => 'R',
            PieceType::Bishop => 'B',
            PieceType::Knight => 'N',
            PieceType::Pawn => 'P',
        }
    }

    /// The lower-case letter of a kind: k, q, r, b, n or p.
    pub open spec fn small_letter(self) -> char {
        match self {
            PieceType::King => 'k',
            PieceType::Queen => 'q',
            PieceType::Rook => 'r',
            PieceType::Bishop => 'b',
            PieceType::Knight => 'n',
            PieceType::Pawn => 'p',
        }
    }
}

impl Piece {
    /// The glyph of a piece: the letter of its kind, upper case for White and
    /// lower case for Black.
    pub open spec fn glyph_spec(self) -> char {
        match self.color {
            PieceColor::White => self.piece_type.letter(),
            PieceColor::Black => self.piece_type.small_letter(),
        }
    }

    /// Computes the glyph of the piece.
    #[verifier::when_used_as_spec(glyph_spec)]
    pub fn glyph(self) -> (c: char)
        ensures
            c == self.glyph_spec(),
    {
        let upper: char = match self.piece_type {
            PieceType::King => 'K',
            PieceType::Queen => 'Q',
            PieceType::Rook => 'R',
            PieceType::Bishop => 'B',
            PieceType::Knight => 'N',
            PieceType::Pawn => 'P',
        };
        match self.color {
            PieceColor::White => upper,
            PieceColor::Black => ((upper as u8) + 32) as char,
        }
    }
}

impl Square {
    /// The glyph of a square: that of its piece, or a space where it is empty.
    pub open spec fn glyph_spec(self) -> char {
        match self.piece {
            Some(piece) => piece.glyph_spec(),
            None => ' ',
        }
    }

    /// Computes the glyph of the square.
    #[verifier::when_used_as_spec(glyph_spec)]
    pub fn glyph(self) -> (c: char)
        ensures
            c == self.glyph_spec(),
    {
        match self.piece {
            Some(piece) => piece.glyph(),
            None => ' ',
        }
    }
}

} // verus!
