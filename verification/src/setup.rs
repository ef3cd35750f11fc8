//! The starting position.

use vstd::prelude::*;
use crate::piece::{Piece, PieceColor, PieceType, Square};

verus! {

/// The kind of piece that starts on a back rank in column `col`: rook, knight,
/// bishop, queen, king, bishop, knight, rook.
pub open spec fn back_rank_kind(col: int) -> PieceType {
    if col == 0 || col == 7 {
        PieceType::Rook
    } else if col == 1 || col == 6 {
        PieceType::Knight
    } else if col == 2 || col == 5 {
        PieceType::Bishop
    } else if col == 3 {
        PieceType::Queen
    } else {
        PieceType::King
    }
}

/// The piece of the given side that starts on its back rank in column `col`.
pub open spec fn back_rank_piece(col: int, color: PieceColor) -> Piece {
    Piece { piece_type: back_rank_kind(col), color }
}

/// A pawn of the given side.
pub open spec fn pawn(color: PieceColor) -> Piece {
    Piece { piece_type: PieceType::Pawn, color }
}

/// The square at `row` and `col` of the starting position. Row 0 is Black's
/// back rank, row 1 holds Black's pawns, row 6 White's pawns and row 7 is
/// White's back rank; the rows between are empty.
pub open spec fn initial_square(row: int, col: int) -> Square {
    if row == 0 {
        Square { piece: Some(back_rank_piece(col, PieceColor::Black)) }
    } else if row == 1 {
        Square { piece: Some(pawn(PieceColor::Black)) }
    } else if row == 6 {
        Square { piece: Some(pawn(PieceColor::White)) }
    } else if row == 7 {
        Square { piece: Some(back_rank_piece(col, PieceColor::White)) }
    } else {
        Square { piece: None }
    }
}

/// The starting position as eight rows of eight squares.
pub open spec fn initial_grid() -> Seq<Seq<Square>> {
    Seq::new(8, |row: int| Seq::new(8, |col: int| initial_square(row, col)))
}

/// The rows of an array of squares, as sequences.
pub open spec fn grid_of(squares: [[Square; 8]; 8]) -> Seq<Seq<Square>> {
    Seq::new(8, |row: int| squares[row]@)
}

/// Builds the squares of the starting position.
pub fn create_squares() -> (squares: [[Square; 8]; 8])
    ensures
        grid_of(squares) == initial_grid(),
        forall|row: int, col: int|
            0 <= row < 8 && 0 <= col < 8 ==> #[trigger] squares[row][col] == initial_square(
                row,
                col,
            ),
{
    let mut squares = [[Square { piece: None }; 8]; 8];

    for i in 0..8usize
        invariant
            forall|r: int, c: int|
                0 <= r < 8 && 0 <= c < 8 && r != 1 && r != 6 ==> squares[r][c].piece.is_none(),
            forall|c: int| 0 <= c < i ==> squares[1][c] == initial_square(1, c),
            forall|c: int| 0 <= c < i ==> squares[6][c] == initial_square(6, c),
    {
        squares[1][i].piece = Some(Piece { piece_type: PieceType::Pawn, color: PieceColor::Black });
        squares[6][i].piece = Some(Piece { piece_type: PieceType::Pawn, color: PieceColor::White });
    }

    let back_row = [
        PieceType::Rook,
        PieceType::Knight,
        PieceType::Bishop,
        PieceType::Queen,
        PieceType::King,
        PieceType::Bishop,
        PieceType::Knight,
        PieceType::Rook,
    ];

    for i in 0..8usize
        invariant
            forall|c: int| 0 <= c < 8 ==> back_row[c] == back_rank_kind(c),
            forall|r: int, c: int|
                0 <= r < 8 && 0 <= c < 8 && r != 0 && r != 7 ==> squares[r][c] == initial_square(
                    r,
                    c,
                ),
            forall|c: int| 0 <= c < i ==> squares[0][c] == initial_square(0, c),
            forall|c: int| 0 <= c < i ==> squares[7][c] == initial_square(7, c),
    {
        squares[0][i].piece = Some(Piece { piece_type: back_row[i], color: PieceColor::Black });
        squares[7][i].piece = Some(Piece { piece_type: back_row[i], color: PieceColor::White });
    }

    assert forall|r: int| 0 <= r < 8 implies grid_of(squares)[r] == initial_grid()[r] by {
        assert forall|c: int| 0 <= c < 8 implies grid_of(squares)[r][c] == initial_grid()[r][c] by {
            assert(squares[r][c] == initial_square(r, c));
        }
    }
    squares
}

} // verus!
