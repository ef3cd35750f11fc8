use chess::render::{footer, page, rank_line, separator};

fn row_of(tokens: [&str; 8]) -> Vec<String> {
    tokens.iter().map(|token| token.to_string()).collect()
}

#[test]
fn rank_line_has_label_bar_and_spaced_tokens() {
    let tokens = row_of(["r", "n", "b", "q", "k", "b", "n", "r"]);
    assert_eq!(rank_line(0, &tokens), "8 | r n b q k b n r \n");
    assert_eq!(rank_line(7, &tokens), "1 | r n b q k b n r \n");
    assert_eq!(rank_line(3, &tokens), "5 | r n b q k b n r \n");
}

#[test]
fn rank_line_keeps_tokens_of_any_length() {
    let tokens = row_of(["\u{1b}[33mK\u{1b}[0m", " ", "", "abc", "P", "p", " ", "x"]);
    assert_eq!(rank_line(6, &tokens), "2 | \u{1b}[33mK\u{1b}[0m    abc P p   x \n");
}

#[test]
fn rank_line_of_no_tokens_is_label_and_bar() {
    assert_eq!(rank_line(0, &Vec::new()), "8 | \n");
}

#[test]
fn separator_is_three_spaces_and_sixteen_dashes() {
    assert_eq!(separator(), "   ----------------\n");
    assert_eq!(separator(), format!("   {}\n", "-".repeat(16)));
}

#[test]
fn footer_names_the_files() {
    assert_eq!(footer(), "    A B C D E F G H\n");
}

#[test]
fn page_puts_rows_from_rank_8_down() {
    let rows: Vec<Vec<String>> = (0..8)
        .map(|row| (0..8).map(|col| format!("{}{}", row, col)).collect())
        .collect();
    let expected = "8 | 00 01 02 03 04 05 06 07 \n\
                    7 | 10 11 12 13 14 15 16 17 \n\
                    6 | 20 21 22 23 24 25 26 27 \n\
                    5 | 30 31 32 33 34 35 36 37 \n\
                    4 | 40 41 42 43 44 45 46 47 \n\
                    3 | 50 51 52 53 54 55 56 57 \n\
                    2 | 60 61 62 63 64 65 66 67 \n\
                    1 | 70 71 72 73 74 75 76 77 \n   \
                    ----------------\n    \
                    A B C D E F G H\n";
    assert_eq!(page(&rows), expected);
}

#[test]
fn page_is_the_rank_lines_then_separator_and_footer() {
    let rows: Vec<Vec<String>> = (0..8).map(|_| row_of(["a", "b", "c", "d", "e", "f", "g", "h"])).collect();
    let mut expected = String::new();
    for row in 0..8 {
        expected.push_str(&rank_line(row, &rows[row]));
    }
    expected.push_str(&separator());
    expected.push_str(&footer());
    assert_eq!(page(&rows), expected);
}
