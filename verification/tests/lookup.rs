use chess::Board;

#[test]
fn corner_labels_have_their_pairs() {
    let board = Board::new();
    assert_eq!(board.get_index("a1"), Some((0, 0)));
    assert_eq!(board.get_index("a8"), Some((0, 7)));
    assert_eq!(board.get_index("h1"), Some((7, 0)));
    assert_eq!(board.get_index("h8"), Some((7, 7)));
}

#[test]
fn file_comes_first_and_rank_second() {
    let board = Board::new();
    assert_eq!(board.get_index("e4"), Some((4, 3)));
    assert_eq!(board.get_index("b7"), Some((1, 6)));
    assert_eq!(board.get_index("g2"), Some((6, 1)));
}

#[test]
fn all_64_labels_give_their_own_pair() {
    let board = Board::new();
    let mut seen = vec![vec![false; 8]; 8];
    for (i, file) in ('a'..='h').enumerate() {
        for (j, rank) in ('1'..='8').enumerate() {
            let label = format!("{}{}", file, rank);
            assert_eq!(board.get_index(&label), Some((i, j)), "label {}", label);
            assert!(!seen[i][j]);
            seen[i][j] = true;
        }
    }
    assert!(seen.iter().all(|file| file.iter().all(|hit| *hit)));
}

#[test]
fn other_strings_give_nothing() {
    let board = Board::new();
    for label in [
        "", "a", "1", "a0", "a9", "i1", "`1", "A1", "H8", "1a", "a1 ", " a1", "a11", "aa", "11",
        "e4e5", "\u{e9}1", "a\u{661}",
    ] {
        assert_eq!(board.get_index(label), None, "label {:?}", label);
    }
}

#[test]
fn lookup_is_the_same_on_every_board() {
    let first = Board::new();
    let second = Board::new();
    for label in ["a1", "c6", "h8", "z9", ""] {
        assert_eq!(first.get_index(label), second.get_index(label));
        assert_eq!(first.get_index(label), first.get_index(label));
    }
}
