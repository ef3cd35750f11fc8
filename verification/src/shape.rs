//! What holds of every page: its lines, and what is left of it once the
//! color codes are out of the picture.

use vstd::prelude::*;
use crate::piece::Square;
use crate::setup::initial_grid;
use crate::render::{
    are_tokens, footer_text, is_rendering, page_text, rank_label, rank_line_text,
    rank_lines_text, separator_text, spaced,
};
use crate::style::{
    in_code, is_closed, lemma_uncoded_of_plain, lemma_without_codes_concat, uncoded,
    without_codes,
};
use crate::text::{count_of, lemma_count_of_absent, lemma_count_of_concat};

verus! {

/// The tokens of a position when nothing is colored: for each square its
/// glyph and nothing else.
pub open spec fn plain_tokens(grid: Seq<Seq<Square>>) -> Seq<Seq<Seq<char>>> {
    Seq::new(8, |r: int| Seq::new(8, |c: int| seq![grid[r][c].glyph()]))
}

/// The page of a position when nothing is colored.
pub open spec fn plain_text(grid: Seq<Seq<Square>>) -> Seq<char> {
    page_text(plain_tokens(grid))
}

/// A rank line is the rank digit, a space, a bar and a space, then the eight
/// tokens of the row, each followed by a space, and a line feed.
pub proof fn lemma_rank_line_shape(row: int, tokens: Seq<Seq<char>>)
    requires
        tokens.len() == 8,
    ensures
        rank_line_text(row, tokens) == seq![rank_label(row), ' ', '|', ' '] + tokens[0] + seq![' ']
            + tokens[1] + seq![' '] + tokens[2] + seq![' '] + tokens[3] + seq![' '] + tokens[4]
            + seq![' '] + tokens[5] + seq![' '] + tokens[6] + seq![' '] + tokens[7] + seq![' ']
            + seq!['\n'],
{
    reveal_with_fuel(spaced, 9);
    assert(rank_line_text(row, tokens) =~= seq![rank_label(row), ' ', '|', ' '] + tokens[0]
        + seq![' '] + tokens[1] + seq![' '] + tokens[2] + seq![' '] + tokens[3] + seq![' ']
        + tokens[4] + seq![' '] + tokens[5] + seq![' '] + tokens[6] + seq![' '] + tokens[7]
        + seq![' '] + seq!['\n']);
}

/// A page is eight rank lines, for the rows from 0 to 7, followed by the
/// separator and the footer.
pub proof fn lemma_page_shape(rows: Seq<Seq<Seq<char>>>)
    ensures
        page_text(rows) == rank_line_text(0, rows[0]) + rank_line_text(1, rows[1])
            + rank_line_text(2, rows[2]) + rank_line_text(3, rows[3]) + rank_line_text(4, rows[4])
            + rank_line_text(5, rows[5]) + rank_line_text(6, rows[6]) + rank_line_text(7, rows[7])
            + separator_text() + footer_text(),
{
    reveal_with_fuel(rank_lines_text, 9);
    assert(page_text(rows) =~= rank_line_text(0, rows[0]) + rank_line_text(1, rows[1])
        + rank_line_text(2, rows[2]) + rank_line_text(3, rows[3]) + rank_line_text(4, rows[4])
        + rank_line_text(5, rows[5]) + rank_line_text(6, rows[6]) + rank_line_text(7, rows[7])
        + separator_text() + footer_text());
}

/// The rank lines of the starting position without colors, from Black's back
/// rank down to White's.
pub proof fn lemma_initial_rank_lines()
    ensures
        rank_line_text(0, plain_tokens(initial_grid())[0]) == "8 | r n b q k b n r \n"@,
        rank_line_text(1, plain_tokens(initial_grid())[1]) == "7 | p p p p p p p p \n"@,
        rank_line_text(2, plain_tokens(initial_grid())[2]) == "6 |                 \n"@,
        rank_line_text(3, plain_tokens(initial_grid())[3]) == "5 |                 \n"@,
        rank_line_text(4, plain_tokens(initial_grid())[4]) == "4 |                 \n"@,
        rank_line_text(5, plain_tokens(initial_grid())[5]) == "3 |                 \n"@,
        rank_line_text(6, plain_tokens(initial_grid())[6]) == "2 | P P P P P P P P \n"@,
        rank_line_text(7, plain_tokens(initial_grid())[7]) == "1 | R N B Q K B N R \n"@,
{
    let plain = plain_tokens(initial_grid());
    reveal_strlit("8 | r n b q k b n r \n");
    reveal_strlit("7 | p p p p p p p p \n");
    reveal_strlit("6 |                 \n");
    reveal_strlit("5 |                 \n");
    reveal_strlit("4 |                 \n");
    reveal_strlit("3 |                 \n");
    reveal_strlit("2 | P P P P P P P P \n");
    reveal_strlit("1 | R N B Q K B N R \n");
    lemma_rank_line_shape(0, plain[0]);
    lemma_rank_line_shape(1, plain[1]);
    lemma_rank_line_shape(2, plain[2]);
    lemma_rank_line_shape(3, plain[3]);
    lemma_rank_line_shape(4, plain[4]);
    lemma_rank_line_shape(5, plain[5]);
    lemma_rank_line_shape(6, plain[6]);
    lemma_rank_line_shape(7, plain[7]);
    assert(rank_line_text(0, plain[0]) =~= "8 | r n b q k b n r \n"@);
    assert(rank_line_text(1, plain[1]) =~= "7 | p p p p p p p p \n"@);
    assert(rank_line_text(2, plain[2]) =~= "6 |                 \n"@);
    assert(rank_line_text(3, plain[3]) =~= "5 |                 \n"@);
    assert(rank_line_text(4, plain[4]) =~= "4 |                 \n"@);
    assert(rank_line_text(5, plain[5]) =~= "3 |                 \n"@);
    assert(rank_line_text(6, plain[6]) =~= "2 | P P P P P P P P \n"@);
    assert(rank_line_text(7, plain[7]) =~= "1 | R N B Q K B N R \n"@);
}

/// The page without colors shows the position: it is one of its renderings.
pub proof fn lemma_plain_text_is_rendering(grid: Seq<Seq<Square>>)
    ensures
        is_rendering(grid, plain_text(grid)),
{
    assert(are_tokens(grid, plain_tokens(grid)));
}

/// A token ends outside any color code and, with the codes taken out, is the
/// glyph of its square.
pub proof fn lemma_token_without_codes(square: Square, token: Seq<char>)
    requires
        square.is_token(token),
    ensures
        is_closed(token),
        without_codes(token) == seq![square.glyph()],
{
    reveal_with_fuel(in_code, 11);
    reveal_with_fuel(uncoded, 11);
    assert(without_codes(token) =~= seq![square.glyph()]);
}

/// Taking the codes out of a spaced row is spacing the tokens without their
/// codes.
proof fn lemma_spaced_without_codes(tokens: Seq<Seq<char>>, plain: Seq<Seq<char>>, n: nat)
    requires
        n <= tokens.len(),
        n <= plain.len(),
        forall|c: int|
            0 <= c < n ==> is_closed(#[trigger] tokens[c]) && without_codes(tokens[c]) == plain[c],
    ensures
        is_closed(spaced(tokens, n)),
        without_codes(spaced(tokens, n)) == spaced(plain, n),
    decreases n,
{
    if n > 0 {
        let before = spaced(tokens, (n - 1) as nat);
        lemma_spaced_without_codes(tokens, plain, (n - 1) as nat);
        assert(is_closed(tokens[n - 1]));
        lemma_without_codes_concat(before, tokens[n - 1]);
        lemma_without_codes_concat(before + tokens[n - 1], seq![' ']);
        lemma_uncoded_of_plain(seq![' '], 1);
        assert(seq![' '].take(1) =~= seq![' ']);
    }
}

/// Taking the codes out of a rank line is writing the line with the tokens
/// without their codes.
proof fn lemma_rank_line_without_codes(row: int, tokens: Seq<Seq<char>>, plain: Seq<Seq<char>>)
    requires
        0 <= row < 8,
        tokens.len() == plain.len(),
        forall|c: int|
            0 <= c < tokens.len() ==> is_closed(#[trigger] tokens[c]) && without_codes(tokens[c])
                == plain[c],
    ensures
        is_closed(rank_line_text(row, tokens)),
        without_codes(rank_line_text(row, tokens)) == rank_line_text(row, plain),
{
    let head = seq![rank_label(row), ' ', '|', ' '];
    let body = spaced(tokens, tokens.len());
    lemma_uncoded_of_plain(head, 4);
    assert(head.take(4) =~= head);
    lemma_spaced_without_codes(tokens, plain, tokens.len());
    lemma_without_codes_concat(head, body);
    lemma_uncoded_of_plain(seq!['\n'], 1);
    assert(seq!['\n'].take(1) =~= seq!['\n']);
    lemma_without_codes_concat(head + body, seq!['\n']);
}

/// Taking the codes out of the lines of the first `n` rows is writing them
/// with the tokens without their codes.
proof fn lemma_rank_lines_without_codes(
    rows: Seq<Seq<Seq<char>>>,
    plain: Seq<Seq<Seq<char>>>,
    n: nat,
)
    requires
        n <= 8,
        forall|r: int| 0 <= r < 8 ==> (#[trigger] rows[r]).len() == plain[r].len(),
        forall|r: int, c: int|
            0 <= r < 8 && 0 <= c < rows[r].len() ==> is_closed(#[trigger] rows[r][c])
                && without_codes(rows[r][c]) == plain[r][c],
    ensures
        is_closed(rank_lines_text(rows, n)),
        without_codes(rank_lines_text(rows, n)) == rank_lines_text(plain, n),
    decreases n,
{
    if n > 0 {
        lemma_rank_lines_without_codes(rows, plain, (n - 1) as nat);
        assert(rows[n - 1].len() == plain[n - 1].len());
        lemma_rank_line_without_codes(n - 1, rows[n - 1], plain[n - 1]);
        lemma_without_codes_concat(
            rank_lines_text(rows, (n - 1) as nat),
            rank_line_text(n - 1, rows[n - 1]),
        );
    }
}

/// The separator and the footer hold no color code.
proof fn lemma_last_lines_without_codes()
    ensures
        is_closed(separator_text()),
        without_codes(separator_text()) == separator_text(),
        is_closed(footer_text()),
        without_codes(footer_text()) == footer_text(),
{
    reveal_strlit("   ----------------\n");
    reveal_strlit("    A B C D E F G H\n");
    lemma_uncoded_of_plain(separator_text(), 20);
    lemma_uncoded_of_plain(footer_text(), 20);
    assert(separator_text().take(20) =~= separator_text());
    assert(footer_text().take(20) =~= footer_text());
}

/// Every page that shows a position is, with the color codes taken out, the
/// page without colors.
pub proof fn lemma_rendering_without_codes(grid: Seq<Seq<Square>>, text: Seq<char>)
    requires
        is_rendering(grid, text),
    ensures
        without_codes(text) == plain_text(grid),
{
    let tokens = choose|tokens: Seq<Seq<Seq<char>>>| #[trigger]
        are_tokens(grid, tokens) && text == page_text(tokens);
    let plain = plain_tokens(grid);
    assert forall|r: int, c: int| 0 <= r < 8 && 0 <= c < tokens[r].len() implies is_closed(
        #[trigger] tokens[r][c],
    ) && without_codes(tokens[r][c]) == plain[r][c] by {
        lemma_token_without_codes(grid[r][c], tokens[r][c]);
    }
    lemma_rank_lines_without_codes(tokens, plain, 8);
    lemma_last_lines_without_codes();
    lemma_without_codes_concat(rank_lines_text(tokens, 8), separator_text());
    lemma_without_codes_concat(rank_lines_text(tokens, 8) + separator_text(), footer_text());
}

/// Rendering is deterministic up to the color codes: two pages that show the
/// same position are the same text once the codes are taken out.
pub proof fn lemma_renderings_agree(grid: Seq<Seq<Square>>, a: Seq<char>, b: Seq<char>)
    requires
        is_rendering(grid, a),
        is_rendering(grid, b),
    ensures
        without_codes(a) == without_codes(b),
{
    lemma_rendering_without_codes(grid, a);
    lemma_rendering_without_codes(grid, b);
}

/// With coloring off rendering is deterministic outright: a page that shows a
/// position and holds no escape character is the page without colors.
pub proof fn lemma_plain_rendering(grid: Seq<Seq<Square>>, text: Seq<char>)
    requires
        is_rendering(grid, text),
        !text.contains('\x1b'),
    ensures
        text == plain_text(grid),
{
    lemma_rendering_without_codes(grid, text);
    lemma_uncoded_of_plain(text, text.len());
    assert(text.take(text.len() as int) =~= text);
}

/// No line feed occurs in a token.
proof fn lemma_token_has_no_line_feed(square: Square, token: Seq<char>)
    requires
        square.is_token(token),
    ensures
        count_of(token, '\n') == 0,
{
    lemma_count_of_absent(token, '\n', token.len());
}

/// One line feed occurs in a rank line whose tokens hold none: the one at its
/// end.
proof fn lemma_rank_line_has_one_line_feed(row: int, tokens: Seq<Seq<char>>)
    requires
        0 <= row < 8,
        forall|c: int| 0 <= c < tokens.len() ==> count_of(#[trigger] tokens[c], '\n') == 0,
    ensures
        count_of(rank_line_text(row, tokens), '\n') == 1,
{
    let head = seq![rank_label(row), ' ', '|', ' '];
    let body = spaced(tokens, tokens.len());
    lemma_spaced_has_no_line_feed(tokens, tokens.len());
    lemma_count_of_absent(head, '\n', 4);
    lemma_count_of_concat(head, body, '\n');
    lemma_count_of_concat(head + body, seq!['\n'], '\n');
    reveal_with_fuel(crate::text::occurrences, 2);
}

/// No line feed occurs in a spaced row whose tokens hold none.
proof fn lemma_spaced_has_no_line_feed(tokens: Seq<Seq<char>>, n: nat)
    requires
        n <= tokens.len(),
        forall|c: int| 0 <= c < tokens.len() ==> count_of(#[trigger] tokens[c], '\n') == 0,
    ensures
        count_of(spaced(tokens, n), '\n') == 0,
    decreases n,
{
    if n > 0 {
        let before = spaced(tokens, (n - 1) as nat);
        lemma_spaced_has_no_line_feed(tokens, (n - 1) as nat);
        lemma_count_of_concat(before, tokens[n - 1], '\n');
        lemma_count_of_concat(before + tokens[n - 1], seq![' '], '\n');
        lemma_count_of_absent(seq![' '], '\n', 1);
    }
}

/// The lines of the first `n` rows hold `n` line feeds, when the tokens hold
/// none.
proof fn lemma_rank_lines_line_feeds(rows: Seq<Seq<Seq<char>>>, n: nat)
    requires
        n <= 8,
        forall|r: int, c: int|
            0 <= r < 8 && 0 <= c < rows[r].len() ==> count_of(#[trigger] rows[r][c], '\n') == 0,
    ensures
        count_of(rank_lines_text(rows, n), '\n') == n,
    decreases n,
{
    if n > 0 {
        lemma_rank_lines_line_feeds(rows, (n - 1) as nat);
        lemma_rank_line_has_one_line_feed(n - 1, rows[n - 1]);
        lemma_count_of_concat(
            rank_lines_text(rows, (n - 1) as nat),
            rank_line_text(n - 1, rows[n - 1]),
            '\n',
        );
    }
}

/// Every page that shows a position holds ten line feeds: those that end the
/// eight rank lines, the separator and the footer.
pub proof fn lemma_rendering_has_ten_lines(grid: Seq<Seq<Square>>, text: Seq<char>)
    requires
        is_rendering(grid, text),
    ensures
        count_of(text, '\n') == 10,
{
    let tokens = choose|tokens: Seq<Seq<Seq<char>>>| #[trigger]
        are_tokens(grid, tokens) && text == page_text(tokens);
    assert forall|r: int, c: int| 0 <= r < 8 && 0 <= c < tokens[r].len() implies count_of(
        #[trigger] tokens[r][c],
        '\n',
    ) == 0 by {
        lemma_token_has_no_line_feed(grid[r][c], tokens[r][c]);
    }
    lemma_rank_lines_line_feeds(tokens, 8);
    lemma_count_of_concat(rank_lines_text(tokens, 8), separator_text(), '\n');
    lemma_count_of_concat(rank_lines_text(tokens, 8) + separator_text(), footer_text(), '\n');
    lemma_last_lines_line_feeds();
}

/// The separator and the footer hold one line feed each, at their end.
proof fn lemma_last_lines_line_feeds()
    ensures
        count_of(separator_text(), '\n') == 1,
        count_of(footer_text(), '\n') == 1,
{
    reveal_strlit("   ----------------\n");
    reveal_strlit("    A B C D E F G H\n");
    lemma_count_of_absent(separator_text(), '\n', 19);
    lemma_count_of_absent(footer_text(), '\n', 19);
}

} // verus!
