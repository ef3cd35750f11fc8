use chess::{create_squares, Board, Piece, PieceColor, PieceType, Square};

const BACK_ROW: [PieceType; 8] = [
    PieceType::Rook,
    PieceType::Knight,
    PieceType::Bishop,
    PieceType::Queen,
    PieceType::King,
    PieceType::Bishop,
    PieceType::Knight,
    PieceType::Rook,
];

fn holding(piece_type: PieceType, color: PieceColor) -> Square {
    Square { piece: Some(Piece { piece_type, color }) }
}

#[test]
fn fresh_squares_have_32_occupied_and_32_empty() {
    let squares = create_squares();
    let mut occupied = 0;
    let mut empty = 0;
    for row in squares.iter() {
        for square in row.iter() {
            if square.piece.is_some() {
                occupied += 1;
            } else {
                empty += 1;
            }
        }
    }
    assert_eq!(occupied, 32);
    assert_eq!(empty, 32);
}

#[test]
fn fresh_board_has_32_occupied_and_32_empty() {
    let board = Board::new();
    let mut occupied = 0;
    let mut empty = 0;
    for row in 0..8 {
        for col in 0..8 {
            match board.square(row, col) {
                Some(Square { piece: Some(_) }) => occupied += 1,
                Some(Square { piece: None }) => empty += 1,
                None => panic!("no square at {} {}", row, col),
            }
        }
    }
    assert_eq!(occupied, 32);
    assert_eq!(empty, 32);
}

#[test]
fn every_file_has_one_pawn_of_each_color() {
    let squares = create_squares();
    for col in 0..8 {
        let mut white = 0;
        let mut black = 0;
        for row in 0..8 {
            if squares[row][col] == holding(PieceType::Pawn, PieceColor::White) {
                white += 1;
            }
            if squares[row][col] == holding(PieceType::Pawn, PieceColor::Black) {
                black += 1;
            }
        }
        assert_eq!(white, 1, "white pawns in column {}", col);
        assert_eq!(black, 1, "black pawns in column {}", col);
    }
}

#[test]
fn pawns_stand_on_rows_1_and_6() {
    let squares = create_squares();
    for col in 0..8 {
        assert_eq!(squares[1][col], holding(PieceType::Pawn, PieceColor::Black));
        assert_eq!(squares[6][col], holding(PieceType::Pawn, PieceColor::White));
    }
}

#[test]
fn back_ranks_follow_the_fixed_order() {
    let squares = create_squares();
    for col in 0..8 {
        assert_eq!(squares[0][col], holding(BACK_ROW[col], PieceColor::Black));
        assert_eq!(squares[7][col], holding(BACK_ROW[col], PieceColor::White));
    }
}

#[test]
fn rows_2_to_5_are_empty() {
    let squares = create_squares();
    for row in 2..6 {
        for col in 0..8 {
            assert_eq!(squares[row][col], Square { piece: None });
        }
    }
}

#[test]
fn board_holds_the_squares_of_create_squares() {
    let board = Board::new();
    let squares = create_squares();
    for row in 0..8 {
        for col in 0..8 {
            assert_eq!(board.square(row, col), Some(squares[row][col]));
        }
    }
}

#[test]
fn square_outside_the_board_is_none() {
    let board = Board::new();
    assert_eq!(board.square(8, 0), None);
    assert_eq!(board.square(0, 8), None);
    assert_eq!(board.square(8, 8), None);
    assert_eq!(board.square(usize::MAX, 3), None);
    assert_eq!(board.square(7, 7), Some(holding(PieceType::Rook, PieceColor::White)));
    assert_eq!(board.square(0, 4), Some(holding(PieceType::King, PieceColor::Black)));
    assert_eq!(board.square(7, 3), Some(holding(PieceType::Queen, PieceColor::White)));
}

#[test]
fn glyphs_are_upper_case_for_white() {
    let kinds = [
        (PieceType::King, 'K'),
        (PieceType::Queen, 'Q'),
        (PieceType::Rook, 'R'),
        (PieceType::Bishop, 'B'),
        (PieceType::Knight, 'N'),
        (PieceType::Pawn, 'P'),
    ];
    for (piece_type, glyph) in kinds {
        let piece = Piece { piece_type, color: PieceColor::White };
        assert_eq!(piece.glyph(), glyph);
        assert_eq!(Square { piece: Some(piece) }.glyph(), glyph);
    }
}

#[test]
fn glyphs_are_lower_case_for_black() {
    let kinds = [
        (PieceType::King, 'k'),
        (PieceType::Queen, 'q'),
        (PieceType::Rook, 'r'),
        (PieceType::Bishop, 'b'),
        (PieceType::Knight, 'n'),
        (PieceType::Pawn, 'p'),
    ];
    for (piece_type, glyph) in kinds {
        let piece = Piece { piece_type, color: PieceColor::Black };
        assert_eq!(piece.glyph(), glyph);
        assert_eq!(Square { piece: Some(piece) }.glyph(), glyph);
    }
}

#[test]
fn empty_square_has_a_space_for_glyph() {
    assert_eq!(Square { piece: None }.glyph(), ' ');
}
