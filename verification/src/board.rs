//! The board: its squares and the table of their labels.

use vstd::prelude::*;
use vstd::hash_map::StringHashMap;
use crate::census::{
    lemma_initial_occupancy, lemma_initial_pawns, occupied, pieces_in_file, vacant,
};
use crate::coords::{
    coordinate_map, index_of, is_label, label_of, labels_before, lemma_lookup_injective,
    lemma_lookup_onto, lookup,
};
use crate::piece::{PieceColor, Square};
use crate::render::{are_tokens, is_rendering, page};
use crate::setup::{back_rank_piece, create_squares, grid_of, initial_grid, pawn};

verus! {

/// A chess board: eight rows of eight squares, row 0 being Black's back rank,
/// together with the table that finds a square's index pair by its label.
pub struct Board {
    squares: [[Square; 8]; 8],
    location_to_index: StringHashMap<(usize, usize)>,
}

impl Board {
    /// The table holds the 64 labels, each with its index pair, and nothing
    /// else.
    #[verifier::type_invariant]
    spec fn well_formed(&self) -> bool {
        self.location_to_index@ == coordinate_map()
    }

    /// The squares of the board, row by row.
    pub closed spec fn grid(&self) -> Seq<Seq<Square>> {
        grid_of(self.squares)
    }

    /// Sets up a board in the starting position.
    pub fn new() -> (board: Self)
        ensures
            board.grid() == initial_grid(),
            occupied(board.grid()) == 32,
            vacant(board.grid()) == 32,
            forall|col: int, color: PieceColor|
                0 <= col < 8 ==> #[trigger] pieces_in_file(board.grid(), col, pawn(color)) == 1,
            forall|col: int|
                0 <= col < 8 ==> (#[trigger] board.grid()[0][col]).piece == Some(
                    back_rank_piece(col, PieceColor::Black),
                ),
            forall|col: int|
                0 <= col < 8 ==> (#[trigger] board.grid()[7][col]).piece == Some(
                    back_rank_piece(col, PieceColor::White),
                ),
    {
        let mut location_to_index: StringHashMap<(usize, usize)> = StringHashMap::new();
        for i in 0..8u8
            invariant
                location_to_index@ == labels_before(i as int, 0),
        {
            for j in 0..8u8
                invariant
                    0 <= i < 8,
                    location_to_index@ == labels_before(i as int, j as int),
            {
                let mut label = String::new();
                label.push(('a' as u8 + i) as char);
                label.push(('1' as u8 + j) as char);
                proof {
                    assert(label@ =~= label_of(i as int, j as int));
                    lemma_lookup_onto(i as int, j as int);
                    assert forall|other: Seq<char>|
                        is_label(other) && index_of(other) == (
                            i as usize,
                            j as usize,
                        ) implies other == label@ by {
                        lemma_lookup_injective(other, label@);
                    }
                }
                location_to_index.insert(label, (i as usize, j as usize));
                assert(location_to_index@ =~= labels_before(i as int, j + 1));
            }
            assert(location_to_index@ =~= labels_before(i + 1, 0));
        }
        assert(location_to_index@ =~= coordinate_map());

        proof {
            lemma_initial_occupancy();
            assert forall|col: int, color: PieceColor| 0 <= col < 8 implies #[trigger] pieces_in_file(
                initial_grid(),
                col,
                pawn(color),
            ) == 1 by {
                lemma_initial_pawns(col, color);
            }
        }
        Self { squares: create_squares(), location_to_index }
    }

    /// Looks up the index pair of the square that `location` names: the file
    /// counted from `a`, then the rank counted from `1`. Any string that is
    /// not one of the 64 labels gives `None`.
    pub fn get_index(&self, location: &str) -> (index: Option<(usize, usize)>)
        ensures
            index == lookup(location@),
    {
        proof {
            use_type_invariant(self);
        }
        match self.location_to_index.get(location) {
            Some(pair) => Some(*pair),
            None => None,
        }
    }

    /// The board as a page of text: for each row, from Black's back rank
    /// down, a line with its rank and the tokens of its squares, then the
    /// separator and the file letters. Whether a piece's token carries color
    /// codes is for `colored` to say, square by square.
    pub fn render(&self) -> (text: String)
        ensures
            is_rendering(self.grid(), text@),
    {
        let mut rows: Vec<Vec<String>> = Vec::new();
        for i in 0..8usize
            invariant
                rows.len() == i,
                forall|r: int| 0 <= r < i ==> (#[trigger] rows[r]).len() == 8,
                forall|r: int, c: int|
                    0 <= r < i && 0 <= c < 8 ==> self.grid()[r][c].is_token(
                        #[trigger] rows[r][c]@,
                    ),
        {
            let mut row: Vec<String> = Vec::new();
            for j in 0..8usize
                invariant
                    i < 8,
                    row.len() == j,
                    forall|c: int|
                        0 <= c < j ==> self.grid()[i as int][c].is_token(#[trigger] row[c]@),
            {
                row.push(self.squares[i][j].render());
            }
            rows.push(row);
        }
        let text = page(&rows);
        proof {
            let tokens = rows.deep_view();
            assert forall|r: int, c: int| 0 <= r < 8 && 0 <= c < 8 implies self.grid()[r][c].is_token(
                #[trigger] tokens[r][c],
            ) by {
                assert(tokens[r][c] == rows[r][c]@);
            }
            assert(are_tokens(self.grid(), tokens));
        }
        text
    }

    /// The square at `row` and `col`, or `None` where either is 8 or more.
    pub fn square(&self, row: usize, col: usize) -> (square: Option<Square>)
        ensures
            square == if row < 8 && col < 8 {
                Some(self.grid()[row as int][col as int])
            } else {
                None
            },
    {
        if row < 8 && col < 8 {
            Some(self.squares[row][col])
        } else {
            None
        }
    }
}

} // verus!
