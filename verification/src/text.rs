//! Strings and the characters in them: appending one, counting one.

use vstd::prelude::*;

verus! {

/// `String::push` of the standard library, which vstd leaves without a
/// specification: it appends the character to the end of the string and leaves
/// the rest of it as it was.
pub assume_specification[ String::push ](s: &mut String, ch: char)
    ensures
        final(s)@ == old(s)@.push(ch),
;

/// How often `ch` occurs among the first `n` characters of `text`.
pub open spec fn occurrences(text: Seq<char>, ch: char, n: nat) -> nat
    decreases n,
{
    if n == 0 {
        0
    } else {
        occurrences(text, ch, (n - 1) as nat) + if text[n - 1] == ch {
            1nat
        } else {
            0nat
        }
    }
}

/// How often `ch` occurs in `text`.
pub open spec fn count_of(text: Seq<char>, ch: char) -> nat {
    occurrences(text, ch, text.len())
}

/// Two texts that agree on their first `n` characters hold `ch` equally often
/// among them.
pub proof fn lemma_occurrences_of_prefix(a: Seq<char>, b: Seq<char>, ch: char, n: nat)
    requires
        n <= a.len(),
        n <= b.len(),
        forall|i: int| 0 <= i < n ==> a[i] == b[i],
    ensures
        occurrences(a, ch, n) == occurrences(b, ch, n),
    decreases n,
{
    if n > 0 {
        lemma_occurrences_of_prefix(a, b, ch, (n - 1) as nat);
    }
}

/// A character occurs in two texts put together as often as in the first and
/// in the second taken together.
pub proof fn lemma_count_of_concat(a: Seq<char>, b: Seq<char>, ch: char)
    ensures
        count_of(a + b, ch) == count_of(a, ch) + count_of(b, ch),
    decreases b.len(),
{
    if b.len() == 0 {
        assert(a + b =~= a);
    } else {
        let init = b.drop_last();
        lemma_count_of_concat(a, init, ch);
        lemma_occurrences_of_prefix(a + b, a + init, ch, (a + init).len());
        lemma_occurrences_of_prefix(b, init, ch, init.len());
    }
}

/// A character that is none of the first `n` of a text occurs zero times
/// among them.
pub proof fn lemma_count_of_absent(text: Seq<char>, ch: char, n: nat)
    requires
        n <= text.len(),
        forall|i: int| 0 <= i < n ==> text[i] != ch,
    ensures
        occurrences(text, ch, n) == 0,
    decreases n,
{
    if n > 0 {
        lemma_count_of_absent(text, ch, (n - 1) as nat);
    }
}

} // verus!
