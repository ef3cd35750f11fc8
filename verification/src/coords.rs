//! Algebraic labels of squares and the index pairs they stand for.

use vstd::prelude::*;
use vstd::set_lib::{lemma_int_range, lemma_map_size, set_int_range};

verus! {

/// Whether `label` is a file letter from `a` to `h` followed by a rank digit
/// from `1` to `8`.
pub open spec fn is_label(label: Seq<char>) -> bool {
    &&& label.len() == 2
    &&& 'a' <= label[0] <= 'h'
    &&& '1' <= label[1] <= '8'
}

/// The index pair of a label: first the file, counted from `a` as 0, then the
/// rank, counted from `1` as 0.
///
/// The pair does not address the board's rows and columns, where row 0 is
/// rank 8 and the column is the file: it is the label's own numbering.
pub open spec fn index_of(label: Seq<char>) -> (usize, usize) {
    ((label[0] as int - 'a' as int) as usize, (label[1] as int - '1' as int) as usize)
}

/// The label of file number `file` and rank number `rank`, both from 0.
pub open spec fn label_of(file: int, rank: int) -> Seq<char> {
    seq![('a' as int + file) as char, ('1' as int + rank) as char]
}

/// What looking up `label` gives: its index pair if it is one of the 64
/// labels, and nothing for any other string.
pub open spec fn lookup(label: Seq<char>) -> Option<(usize, usize)> {
    if is_label(label) {
        Some(index_of(label))
    } else {
        None
    }
}

/// The table of all 64 labels with their index pairs.
pub open spec fn coordinate_map() -> Map<Seq<char>, (usize, usize)> {
    Map::new(|label: Seq<char>| is_label(label), |label: Seq<char>| index_of(label))
}

/// The labels that come before file `file`, rank `rank` when the files are
/// gone through from `a` and, within each file, the ranks from `1`.
pub open spec fn labels_before(file: int, rank: int) -> Map<Seq<char>, (usize, usize)> {
    Map::new(
        |label: Seq<char>|
            is_label(label) && (index_of(label).0 < file || (index_of(label).0 == file
                && index_of(label).1 < rank)),
        |label: Seq<char>| index_of(label),
    )
}

/// Looking up a label gives a pair of numbers below 8, and `label_of` leads
/// from that pair back to the label.
pub proof fn lemma_lookup_in_range(label: Seq<char>)
    requires
        is_label(label),
    ensures
        lookup(label) == Some(index_of(label)),
        index_of(label).0 < 8,
        index_of(label).1 < 8,
        label_of(index_of(label).0 as int, index_of(label).1 as int) == label,
{
    assert(label_of(index_of(label).0 as int, index_of(label).1 as int) =~= label);
}

/// Two different labels never share an index pair.
pub proof fn lemma_lookup_injective(a: Seq<char>, b: Seq<char>)
    requires
        is_label(a),
        is_label(b),
        lookup(a) == lookup(b),
    ensures
        a == b,
{
    assert(a =~= b);
}

/// Every pair of numbers below 8 is the index pair of a label.
pub proof fn lemma_lookup_onto(file: int, rank: int)
    requires
        0 <= file < 8,
        0 <= rank < 8,
    ensures
        is_label(label_of(file, rank)),
        lookup(label_of(file, rank)) == Some((file as usize, rank as usize)),
{
}

/// There are 64 labels, and the table holds exactly these.
pub proof fn lemma_sixty_four_labels()
    ensures
        coordinate_map().dom() == Set::new(|label: Seq<char>| is_label(label)),
        coordinate_map().dom().finite(),
        coordinate_map().dom().len() == 64,
{
    let labels = Set::new(|label: Seq<char>| is_label(label));
    let numbers = set_int_range(0, 64);
    let nth = |k: int| label_of(k / 8, k % 8);
    lemma_int_range(0, 64);
    assert forall|j: int, k: int|
        numbers.contains(j) && numbers.contains(k) && #[trigger] nth(j) == #[trigger] nth(
            k,
        ) implies j == k by {
        lemma_lookup_onto(j / 8, j % 8);
        lemma_lookup_onto(k / 8, k % 8);
    }
    assert forall|label: Seq<char>| labels.contains(label) implies numbers.map(nth).contains(
        label,
    ) by {
        lemma_lookup_in_range(label);
        let k = index_of(label).0 * 8 + index_of(label).1;
        assert(numbers.contains(k) && nth(k) == label);
    }
    assert forall|label: Seq<char>| numbers.map(nth).contains(label) implies labels.contains(
        label,
    ) by {
        let k = choose|k: int| numbers.contains(k) && nth(k) == label;
        lemma_lookup_onto(k / 8, k % 8);
    }
    assert(numbers.map(nth) =~= labels);
    lemma_map_size(numbers, labels, nth);
    assert(coordinate_map().dom() =~= labels);
}

} // verus!
