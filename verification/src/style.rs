//! Coloring text for a terminal.

use vstd::prelude::*;
use colored::Colorize;

verus! {

/// The control sequence that switches the terminal's foreground color to the
/// one with the given code: the escape character, `[`, the code and `m`.
pub open spec fn color_on(code: Seq<char>) -> Seq<char> {
    seq!['\x1b', '['] + code + seq!['m']
}

/// The control sequence that switches all coloring off again: the escape
/// character and `[0m`.
pub open spec fn color_off() -> Seq<char> {
    seq!['\x1b', '[', '0', 'm']
}

/// The foreground code of a color name, for the two names in use: 33 for
/// `Yellow` and 34 for `Blue`.
pub open spec fn foreground_code(name: Seq<char>) -> Seq<char>
    recommends
        name == "Yellow"@ || name == "Blue"@,
{
    if name == "Yellow"@ {
        seq!['3', '3']
    } else {
        seq!['3', '4']
    }
}

/// Whether `out` is `text` as it comes back from coloring it with the
/// foreground color of the given code.
///
/// With coloring switched off the text comes back as it is. With coloring
/// switched on it stands between the sequence that switches the color on and
/// the one that switches it off. Should coloring be switched off while the
/// text is being written, the first of the two sequences is left out.
pub open spec fn is_colored(text: Seq<char>, code: Seq<char>, out: Seq<char>) -> bool {
    ||| out == text
    ||| out == color_on(code) + text + color_off()
    ||| out == text + color_off()
}

/// Whether the first `n` characters of `text` end inside a color code. A code
/// runs from an escape character up to the next `m`.
pub open spec fn in_code(text: Seq<char>, n: nat) -> bool
    decreases n,
{
    if n == 0 {
        false
    } else if in_code(text, (n - 1) as nat) {
        text[n - 1] != 'm'
    } else {
        text[n - 1] == '\x1b'
    }
}

/// The first `n` characters of `text` with the color codes taken out.
pub open spec fn uncoded(text: Seq<char>, n: nat) -> Seq<char>
    decreases n,
{
    if n == 0 {
        Seq::empty()
    } else if in_code(text, (n - 1) as nat) || text[n - 1] == '\x1b' {
        uncoded(text, (n - 1) as nat)
    } else {
        uncoded(text, (n - 1) as nat).push(text[n - 1])
    }
}

/// `text` with the color codes taken out.
pub open spec fn without_codes(text: Seq<char>) -> Seq<char> {
    uncoded(text, text.len())
}

/// Whether `text` ends outside any color code.
pub open spec fn is_closed(text: Seq<char>) -> bool {
    !in_code(text, text.len())
}

/// Two texts that agree on their first `n` characters agree on these without
/// the codes, and on whether a code is still open after them.
pub proof fn lemma_uncoded_of_prefix(a: Seq<char>, b: Seq<char>, n: nat)
    requires
        n <= a.len(),
        n <= b.len(),
        forall|i: int| 0 <= i < n ==> a[i] == b[i],
    ensures
        in_code(a, n) == in_code(b, n),
        uncoded(a, n) == uncoded(b, n),
    decreases n,
{
    if n > 0 {
        lemma_uncoded_of_prefix(a, b, (n - 1) as nat);
    }
}

/// Taking the codes out of two texts put together, where the first ends
/// outside any code, is taking them out of each.
pub proof fn lemma_without_codes_concat(a: Seq<char>, b: Seq<char>)
    requires
        is_closed(a),
    ensures
        without_codes(a + b) == without_codes(a) + without_codes(b),
        is_closed(a + b) == is_closed(b),
    decreases b.len(),
{
    if b.len() == 0 {
        assert(a + b =~= a);
        assert(without_codes(a) + without_codes(b) =~= without_codes(a));
    } else {
        let init = b.drop_last();
        lemma_without_codes_concat(a, init);
        lemma_uncoded_of_prefix(a + b, a + init, (a + init).len());
        lemma_uncoded_of_prefix(b, init, init.len());
        assert(without_codes(a + b) =~= without_codes(a) + without_codes(b));
    }
}

/// A text whose first `n` characters hold no escape character has no code
/// among them: they stay as they are.
pub proof fn lemma_uncoded_of_plain(text: Seq<char>, n: nat)
    requires
        n <= text.len(),
        forall|i: int| 0 <= i < n ==> text[i] != '\x1b',
    ensures
        !in_code(text, n),
        uncoded(text, n) == text.take(n as int),
    decreases n,
{
    if n > 0 {
        lemma_uncoded_of_plain(text, (n - 1) as nat);
    }
    assert(uncoded(text, n) =~= text.take(n as int));
}

/// Formats what `colored::Colorize::color` makes of `text` and the color
/// called `name`.
///
/// The contract is believed, not proved. It claims what the `Display` impl of
/// `colored::ColoredString` writes for a string with a foreground color and
/// nothing else set: the text alone when `colored` finds that nothing is to be
/// colored (by its override, the environment or the terminal), and else the
/// text between `ESC[` code `m` and `ESC[0m`, where the code is that of the
/// color the name parses to. `colored` asks afresh whether to color before
/// it writes the opening sequence, so that sequence alone can be missing. The
/// text must hold no escape character: `colored` rewrites reset sequences that
/// it finds inside.
#[verifier::external_body]
pub(crate) fn paint(text: &str, name: &str) -> (out: String)
    requires
        name@ == "Yellow"@ || name@ == "Blue"@,
        !text@.contains('\x1b'),
    ensures
        is_colored(text@, foreground_code(name@), out@),
{
    format!("{}", text.color(name))
}

} // verus!
