//! The board as text: one line for each rank, a separator and a line that
//! names the files.

use vstd::prelude::*;
use vstd::string::StringExecFns;
use crate::piece::{PieceColor, Square};
use crate::style::{foreground_code, is_colored, paint};

verus! {

/// The foreground code in which the pieces of a side are shown: 33, yellow,
/// for White and 34, blue, for Black.
pub open spec fn accent_code(color: PieceColor) -> Seq<char> {
    match color {
        PieceColor::White => seq!['3', '3'],
        PieceColor::Black => seq!['3', '4'],
    }
}

/// The digit at the head of the line of row `row`: `8` for row 0, down to `1`
/// for row 7.
pub open spec fn rank_label(row: int) -> char {
    ('8' as int - row) as char
}

/// The first `n` of `tokens`, each followed by a space.
pub open spec fn spaced(tokens: Seq<Seq<char>>, n: nat) -> Seq<char>
    decreases n,
{
    if n == 0 {
        Seq::empty()
    } else {
        spaced(tokens, (n - 1) as nat) + tokens[n - 1] + seq![' ']
    }
}

/// The line of row `row`: its rank digit, a space, a bar and a space, then
/// each token followed by a space, and a line feed.
pub open spec fn rank_line_text(row: int, tokens: Seq<Seq<char>>) -> Seq<char> {
    seq![rank_label(row), ' ', '|', ' '] + spaced(tokens, tokens.len()) + seq!['\n']
}

/// The lines of the first `n` rows, one after the other.
pub open spec fn rank_lines_text(rows: Seq<Seq<Seq<char>>>, n: nat) -> Seq<char>
    decreases n,
{
    if n == 0 {
        Seq::empty()
    } else {
        rank_lines_text(rows, (n - 1) as nat) + rank_line_text(n - 1, rows[n - 1])
    }
}

/// The line under the ranks: three spaces, sixteen dashes and a line feed.
pub open spec fn separator_text() -> Seq<char> {
    "   ----------------\n"@
}

/// The last line: three spaces, then the letters A to H with a space before
/// each, and a line feed.
pub open spec fn footer_text() -> Seq<char> {
    "    A B C D E F G H\n"@
}

/// The first `n` file letters from `A`, with a space before each.
pub open spec fn file_letters(n: nat) -> Seq<char>
    decreases n,
{
    if n == 0 {
        Seq::empty()
    } else {
        file_letters((n - 1) as nat) + seq![' ', ('A' as int + n - 1) as char]
    }
}

/// The whole page for the tokens of eight rows: the eight rank lines from row
/// 0 down, the separator and the footer.
pub open spec fn page_text(rows: Seq<Seq<Seq<char>>>) -> Seq<char> {
    rank_lines_text(rows, 8) + separator_text() + footer_text()
}

impl Square {
    /// Whether `token` can stand for this square on the page: a space for an
    /// empty square, and for a piece its glyph, plain or in the color of its
    /// side.
    pub open spec fn is_token(self, token: Seq<char>) -> bool {
        match self.piece {
            Some(piece) => is_colored(seq![piece.glyph()], accent_code(piece.color), token),
            None => token == seq![' '],
        }
    }

    /// The token of the square: a space where it is empty, else the glyph of
    /// its piece, which is handed to `colored` as yellow for White and as blue
    /// for Black.
    pub fn render(&self) -> (token: String)
        ensures
            self.is_token(token@),
    {
        match self.piece {
            Some(piece) => {
                let mut glyph = String::new();
                glyph.push(piece.glyph());
                let name = match piece.color {
                    PieceColor::White => "Yellow",
                    PieceColor::Black => "Blue",
                };
                proof {
                    reveal_strlit("Yellow");
                    reveal_strlit("Blue");
                    assert(glyph@ =~= seq![piece.glyph()]);
                    assert("Blue"@.len() != "Yellow"@.len());
                    assert(foreground_code(name@) == accent_code(piece.color));
                }
                paint(glyph.as_str(), name)
            },
            None => {
                let mut blank = String::new();
                blank.push(' ');
                blank
            },
        }
    }
}

/// Whether `tokens` holds, for each of the 64 squares of `grid`, a token that
/// can stand for it.
pub open spec fn are_tokens(grid: Seq<Seq<Square>>, tokens: Seq<Seq<Seq<char>>>) -> bool {
    &&& tokens.len() == 8
    &&& forall|r: int| 0 <= r < 8 ==> (#[trigger] tokens[r]).len() == 8
    &&& forall|r: int, c: int|
        0 <= r < 8 && 0 <= c < 8 ==> grid[r][c].is_token(#[trigger] tokens[r][c])
}

/// Whether `text` is a page that shows `grid`: the page of some tokens that
/// stand for its squares.
pub open spec fn is_rendering(grid: Seq<Seq<Square>>, text: Seq<char>) -> bool {
    exists|tokens: Seq<Seq<Seq<char>>>| #[trigger]
        are_tokens(grid, tokens) && text == page_text(tokens)
}

/// Writes the line of row `row` from the tokens of its squares.
pub fn rank_line(row: usize, tokens: &Vec<String>) -> (line: String)
    requires
        row < 8,
    ensures
        line@ == rank_line_text(row as int, tokens.deep_view()),
{
    let mut line = String::new();
    line.push(('8' as u8 - row as u8) as char);
    line.push(' ');
    line.push('|');
    line.push(' ');
    assert(line@ =~= seq![rank_label(row as int), ' ', '|', ' ']);
    for j in 0..tokens.len()
        invariant
            line@ == seq![rank_label(row as int), ' ', '|', ' '] + spaced(
                tokens.deep_view(),
                j as nat,
            ),
    {
        line.append(tokens[j].as_str());
        line.push(' ');
        assert(line@ =~= seq![rank_label(row as int), ' ', '|', ' '] + spaced(
            tokens.deep_view(),
            (j + 1) as nat,
        ));
    }
    line.push('\n');
    line
}

/// Writes the separator: three spaces, sixteen dashes, a line feed.
pub fn separator() -> (line: String)
    ensures
        line@ == separator_text(),
{
    let mut line = String::new();
    line.append("   ");
    proof {
        reveal_strlit("   ");
    }
    for i in 0..16usize
        invariant
            line@ == seq![' ', ' ', ' '] + Seq::new(i as nat, |k: int| '-'),
    {
        line.push('-');
    }
    line.push('\n');
    proof {
        reveal_strlit("   ----------------\n");
        assert(line@ =~= separator_text());
    }
    line
}

/// Writes the footer: three spaces, the letters A to H with a space before
/// each, a line feed.
pub fn footer() -> (line: String)
    ensures
        line@ == footer_text(),
{
    let mut line = String::new();
    line.append("   ");
    proof {
        reveal_strlit("   ");
    }
    for i in 0..8u8
        invariant
            line@ == seq![' ', ' ', ' '] + file_letters(i as nat),
    {
        line.push(' ');
        line.push(('A' as u8 + i) as char);
        assert(line@ =~= seq![' ', ' ', ' '] + file_letters((i + 1) as nat));
    }
    line.push('\n');
    proof {
        reveal_strlit("    A B C D E F G H\n");
        reveal_with_fuel(file_letters, 9);
        assert(line@ =~= footer_text());
    }
    line
}

/// Lays out the page from the tokens of the squares, given as the eight rows
/// from row 0 down.
pub fn page(rows: &Vec<Vec<String>>) -> (text: String)
    requires
        rows.len() == 8,
    ensures
        text@ == page_text(rows.deep_view()),
{
    let mut text = String::new();
    for i in 0..8usize
        invariant
            rows.len() == 8,
            text@ == rank_lines_text(rows.deep_view(), i as nat),
    {
        let line = rank_line(i, &rows[i]);
        text.append(line.as_str());
    }
    let line = separator();
    text.append(line.as_str());
    let line = footer();
    text.append(line.as_str());
    text
}

} // verus!
