use chess::{Board, Piece, PieceColor, PieceType, Square};

const PLAIN_PAGE: &str = "8 | r n b q k b n r \n\
                          7 | p p p p p p p p \n\
                          6 |                 \n\
                          5 |                 \n\
                          4 |                 \n\
                          3 |                 \n\
                          2 | P P P P P P P P \n\
                          1 | R N B Q K B N R \n   \
                          ----------------\n    \
                          A B C D E F G H\n";

fn plain() {
    colored::control::set_override(false);
}

#[test]
fn plain_board_is_the_expected_page() {
    plain();
    assert_eq!(Board::new().render(), PLAIN_PAGE);
}

#[test]
fn rendering_twice_gives_the_same_text() {
    plain();
    let board = Board::new();
    let first = board.render();
    let second = board.render();
    assert_eq!(first, second);
    assert_eq!(Board::new().render(), first);
}

#[test]
fn page_has_eight_rank_lines_a_separator_and_a_footer() {
    plain();
    let text = Board::new().render();
    assert!(text.ends_with('\n'));
    let lines: Vec<&str> = text.lines().collect();
    assert_eq!(lines.len(), 10);
    for (row, line) in lines[..8].iter().enumerate() {
        assert_eq!(line.len(), 20);
        assert_eq!(&line[..4], format!("{} | ", 8 - row));
        let cells: Vec<char> = line[4..].chars().collect();
        assert_eq!(cells.len(), 16);
        for col in 0..8 {
            assert_eq!(cells[2 * col + 1], ' ');
        }
    }
    assert_eq!(lines[8], "   ----------------");
    assert_eq!(lines[9], "    A B C D E F G H");
}

#[test]
fn rank_lines_show_the_glyphs_of_their_rows() {
    plain();
    let text = Board::new().render();
    let lines: Vec<&str> = text.lines().collect();
    assert_eq!(&lines[0][4..], "r n b q k b n r ");
    assert_eq!(&lines[1][4..], "p p p p p p p p ");
    for row in 2..6 {
        assert_eq!(&lines[row][4..], "                ");
    }
    assert_eq!(&lines[6][4..], "P P P P P P P P ");
    assert_eq!(&lines[7][4..], "R N B Q K B N R ");
}

#[test]
fn rank_line_glyphs_match_the_squares() {
    plain();
    let board = Board::new();
    let text = board.render();
    let lines: Vec<&str> = text.lines().collect();
    for row in 0..8 {
        let cells: Vec<char> = lines[row][4..].chars().collect();
        for col in 0..8 {
            let square = board.square(row, col).unwrap();
            assert_eq!(cells[2 * col], square.glyph());
        }
    }
}

#[test]
fn plain_token_is_the_glyph() {
    plain();
    let white_queen = Square { piece: Some(Piece { piece_type: PieceType::Queen, color: PieceColor::White }) };
    let black_knight = Square { piece: Some(Piece { piece_type: PieceType::Knight, color: PieceColor::Black }) };
    assert_eq!(white_queen.render(), "Q");
    assert_eq!(black_knight.render(), "n");
    assert_eq!(Square { piece: None }.render(), " ");
}
