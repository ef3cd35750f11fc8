use chess::{Board, Piece, PieceColor, PieceType, Square};

fn styled() {
    colored::control::set_override(true);
}

fn holding(piece_type: PieceType, color: PieceColor) -> Square {
    Square { piece: Some(Piece { piece_type, color }) }
}

#[test]
fn white_token_is_wrapped_in_yellow() {
    styled();
    assert_eq!(holding(PieceType::King, PieceColor::White).render(), "\u{1b}[33mK\u{1b}[0m");
    assert_eq!(holding(PieceType::Pawn, PieceColor::White).render(), "\u{1b}[33mP\u{1b}[0m");
}

#[test]
fn black_token_is_wrapped_in_blue() {
    styled();
    assert_eq!(holding(PieceType::King, PieceColor::Black).render(), "\u{1b}[34mk\u{1b}[0m");
    assert_eq!(holding(PieceType::Rook, PieceColor::Black).render(), "\u{1b}[34mr\u{1b}[0m");
}

#[test]
fn empty_token_is_never_colored() {
    styled();
    assert_eq!(Square { piece: None }.render(), " ");
}

#[test]
fn styled_board_wraps_every_piece() {
    styled();
    let text = Board::new().render();
    let lines: Vec<&str> = text.lines().collect();
    assert_eq!(lines.len(), 10);
    let blue = |glyph: char| format!("\u{1b}[34m{}\u{1b}[0m ", glyph);
    let yellow = |glyph: char| format!("\u{1b}[33m{}\u{1b}[0m ", glyph);
    let black_back: String = "rnbqkbnr".chars().map(blue).collect();
    let black_pawns: String = "pppppppp".chars().map(blue).collect();
    let white_pawns: String = "PPPPPPPP".chars().map(yellow).collect();
    let white_back: String = "RNBQKBNR".chars().map(yellow).collect();
    assert_eq!(lines[0], format!("8 | {}", black_back));
    assert_eq!(lines[1], format!("7 | {}", black_pawns));
    for row in 2..6 {
        assert_eq!(lines[row], format!("{} |                 ", 8 - row));
    }
    assert_eq!(lines[6], format!("2 | {}", white_pawns));
    assert_eq!(lines[7], format!("1 | {}", white_back));
    assert_eq!(lines[8], "   ----------------");
    assert_eq!(lines[9], "    A B C D E F G H");
}

#[test]
fn styled_page_without_codes_is_the_plain_page() {
    styled();
    let text = Board::new().render();
    let stripped = text
        .replace("\u{1b}[33m", "")
        .replace("\u{1b}[34m", "")
        .replace("\u{1b}[0m", "");
    let expected = "8 | r n b q k b n r \n\
                    7 | p p p p p p p p \n\
                    6 |                 \n\
                    5 |                 \n\
                    4 |                 \n\
                    3 |                 \n\
                    2 | P P P P P P P P \n\
                    1 | R N B Q K B N R \n   \
                    ----------------\n    \
                    A B C D E F G H\n";
    assert_eq!(stripped, expected);
}
