//! Comparing the pieces a text was split into with the pieces it was
//! expected to split into.

use vstd::prelude::*;

verus! {

/// The first place at which two sequences of pieces differ: its index, and
/// the piece that each sequence holds there, if it is that long.
#[derive(Clone, Debug, PartialEq, Eq)]
pub struct Difference {
    pub index: usize,
    pub expected: Option<String>,
    pub actual: Option<String>,
}

/// The piece at `index`, if there is one.
pub open spec fn piece_at(pieces: Seq<Seq<char>>, index: int) -> Option<Seq<char>> {
    if 0 <= index < pieces.len() {
        Some(pieces[index])
    } else {
        None
    }
}

/// Whether the two sequences differ at `index`: they hold different pieces
/// there, or only one of them is that long.
pub open spec fn differ_at(expected: Seq<Seq<char>>, actual: Seq<Seq<char>>, index: int) -> bool {
    piece_at(expected, index) != piece_at(actual, index)
}

/// Whether `index` is the first place at which the two sequences differ.
pub open spec fn first_difference_at(
    expected: Seq<Seq<char>>,
    actual: Seq<Seq<char>>,
    index: int,
) -> bool {
    &&& 0 <= index
    &&& differ_at(expected, actual, index)
    &&& forall|k: int| 0 <= k < index ==> !differ_at(expected, actual, k)
}

/// Whether `difference` reports the first place at which the two sequences
/// differ, with the piece of each there.
pub open spec fn reports_first_difference(
    expected: Seq<Seq<char>>,
    actual: Seq<Seq<char>>,
    difference: Difference,
) -> bool {
    &&& first_difference_at(expected, actual, difference.index as int)
    &&& difference.expected.deep_view() == piece_at(expected, difference.index as int)
    &&& difference.actual.deep_view() == piece_at(actual, difference.index as int)
}

/// Compares two sequences of pieces: same count, same pieces, same order.
/// Characters are compared as they are. Returns `None` where the sequences
/// are equal, and else the first place at which they differ.
pub fn compare_pieces(expected: &Vec<String>, actual: &Vec<String>) -> (r: Option<Difference>)
    ensures
        match r {
            None => expected.deep_view() == actual.deep_view(),
            Some(difference) => reports_first_difference(
                expected.deep_view(),
                actual.deep_view(),
                difference,
            ),
        },
{
    let mut index: usize = 0;
    while index < expected.len() && index < actual.len()
        invariant
            index <= expected@.len(),
            index <= actual@.len(),
            forall|k: int| 0 <= k < index ==> (#[trigger] expected@[k])@ == actual@[k]@,
        decreases expected@.len() - index,
    {
        if expected[index] != actual[index] {
            return Some(
                Difference {
                    index,
                    expected: Some(expected[index].clone()),
                    actual: Some(actual[index].clone()),
                },
            );
        }
        index = index + 1;
    }
    if index < expected.len() {
        Some(Difference { index, expected: Some(expected[index].clone()), actual: None })
    } else if index < actual.len() {
        Some(Difference { index, expected: None, actual: Some(actual[index].clone()) })
    } else {
        assert(expected.deep_view() =~= actual.deep_view());
        None
    }
}

} // verus!
