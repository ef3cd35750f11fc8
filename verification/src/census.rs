//! Counting the squares and pieces of a position.

use vstd::prelude::*;
use crate::piece::{Piece, PieceColor, PieceType, Square};
use crate::setup::{back_rank_kind, back_rank_piece, initial_grid, pawn};

verus! {

/// How many of the first `n` squares of `row` hold a piece.
pub open spec fn occupied_in_row(row: Seq<Square>, n: nat) -> nat
    decreases n,
{
    if n == 0 {
        0
    } else {
        occupied_in_row(row, (n - 1) as nat) + if row[n - 1].piece is Some {
            1nat
        } else {
            0nat
        }
    }
}

/// How many squares in the first `n` rows of `grid` hold a piece.
pub open spec fn occupied_in_rows(grid: Seq<Seq<Square>>, n: nat) -> nat
    decreases n,
{
    if n == 0 {
        0
    } else {
        occupied_in_rows(grid, (n - 1) as nat) + occupied_in_row(grid[n - 1], grid[n - 1].len())
    }
}

/// The number of occupied squares of a position.
pub open spec fn occupied(grid: Seq<Seq<Square>>) -> nat {
    occupied_in_rows(grid, grid.len())
}

/// How many of the first `n` squares of `row` are empty.
pub open spec fn vacant_in_row(row: Seq<Square>, n: nat) -> nat
    decreases n,
{
    if n == 0 {
        0
    } else {
        vacant_in_row(row, (n - 1) as nat) + if row[n - 1].piece is None {
            1nat
        } else {
            0nat
        }
    }
}

/// How many squares in the first `n` rows of `grid` are empty.
pub open spec fn vacant_in_rows(grid: Seq<Seq<Square>>, n: nat) -> nat
    decreases n,
{
    if n == 0 {
        0
    } else {
        vacant_in_rows(grid, (n - 1) as nat) + vacant_in_row(grid[n - 1], grid[n - 1].len())
    }
}

/// The number of empty squares of a position.
pub open spec fn vacant(grid: Seq<Seq<Square>>) -> nat {
    vacant_in_rows(grid, grid.len())
}

/// How many of the first `n` rows of `grid` hold `piece` in column `col`.
pub open spec fn count_in_file(grid: Seq<Seq<Square>>, col: int, piece: Piece, n: nat) -> nat
    decreases n,
{
    if n == 0 {
        0
    } else {
        count_in_file(grid, col, piece, (n - 1) as nat) + if grid[n - 1][col].piece == Some(
            piece,
        ) {
            1nat
        } else {
            0nat
        }
    }
}

/// The number of squares in column `col` of a position that hold `piece`.
pub open spec fn pieces_in_file(grid: Seq<Seq<Square>>, col: int, piece: Piece) -> nat {
    count_in_file(grid, col, piece, grid.len())
}

/// Every square of a row is either occupied or empty: the two counts add up
/// to the number of squares counted.
pub proof fn lemma_row_counts_add_up(row: Seq<Square>, n: nat)
    ensures
        occupied_in_row(row, n) + vacant_in_row(row, n) == n,
    decreases n,
{
    if n > 0 {
        lemma_row_counts_add_up(row, (n - 1) as nat);
    }
}

/// Every square of a position of eight rows of eight is either occupied or
/// empty: the two counts add up to 64.
pub proof fn lemma_counts_add_up(grid: Seq<Seq<Square>>)
    requires
        grid.len() == 8,
        forall|row: int| 0 <= row < 8 ==> (#[trigger] grid[row]).len() == 8,
    ensures
        occupied(grid) + vacant(grid) == 64,
{
    assert forall|row: int| 0 <= row < 8 implies occupied_in_row(grid[row], 8) + vacant_in_row(
        #[trigger] grid[row],
        8,
    ) == 8 by {
        lemma_row_counts_add_up(grid[row], 8);
    }
    reveal_with_fuel(occupied_in_rows, 9);
    reveal_with_fuel(vacant_in_rows, 9);
}

/// In a row whose first `n` squares all hold a piece, `n` are occupied.
pub proof fn lemma_full_row(row: Seq<Square>, n: nat)
    requires
        forall|c: int| 0 <= c < n ==> row[c].piece is Some,
    ensures
        occupied_in_row(row, n) == n,
        vacant_in_row(row, n) == 0,
    decreases n,
{
    if n > 0 {
        lemma_full_row(row, (n - 1) as nat);
    }
}

/// In a row whose first `n` squares are all empty, none is occupied.
pub proof fn lemma_bare_row(row: Seq<Square>, n: nat)
    requires
        forall|c: int| 0 <= c < n ==> row[c].piece is None,
    ensures
        occupied_in_row(row, n) == 0,
        vacant_in_row(row, n) == n,
    decreases n,
{
    if n > 0 {
        lemma_bare_row(row, (n - 1) as nat);
    }
}

/// The starting position has 32 occupied and 32 empty squares.
pub proof fn lemma_initial_occupancy()
    ensures
        occupied(initial_grid()) == 32,
        vacant(initial_grid()) == 32,
{
    let grid = initial_grid();
    lemma_full_row(grid[0], 8);
    lemma_full_row(grid[1], 8);
    lemma_bare_row(grid[2], 8);
    lemma_bare_row(grid[3], 8);
    lemma_bare_row(grid[4], 8);
    lemma_bare_row(grid[5], 8);
    lemma_full_row(grid[6], 8);
    lemma_full_row(grid[7], 8);
    reveal_with_fuel(occupied_in_rows, 9);
    reveal_with_fuel(vacant_in_rows, 9);
}

/// In the starting position every file holds exactly one pawn of each side.
pub proof fn lemma_initial_pawns(col: int, color: PieceColor)
    requires
        0 <= col < 8,
    ensures
        pieces_in_file(initial_grid(), col, pawn(color)) == 1,
{
    reveal_with_fuel(count_in_file, 9);
}

/// In the starting position row 0 holds Black's and row 7 White's pieces in
/// the order rook, knight, bishop, queen, king, bishop, knight, rook.
pub proof fn lemma_initial_back_ranks(col: int)
    requires
        0 <= col < 8,
    ensures
        back_rank_kind(col) == seq![
            PieceType::Rook,
            PieceType::Knight,
            PieceType::Bishop,
            PieceType::Queen,
            PieceType::King,
            PieceType::Bishop,
            PieceType::Knight,
            PieceType::Rook,
        ][col],
        initial_grid()[0][col].piece == Some(back_rank_piece(col, PieceColor::Black)),
        initial_grid()[7][col].piece == Some(back_rank_piece(col, PieceColor::White)),
{
}

} // verus!
