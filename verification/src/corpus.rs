//! Recorded results: texts with the pieces they are expected to split into.

use vstd::prelude::*;

verus! {

/// A text and the pieces it splits into.
#[derive(Clone, Debug, PartialEq, Eq, PartialOrd, Ord)]
pub struct LexerResult {
    pub text: String,
    pub pieces: Vec<String>,
}

/// The recorded results of one scheme, in the order in which they are
/// checked.
#[derive(Clone, Debug, PartialEq, Eq, PartialOrd, Ord)]
pub struct SnapshotData {
    pub data: Vec<LexerResult>,
}

/// A text and its pieces, as sequences of characters.
pub struct Record {
    pub text: Seq<char>,
    pub pieces: Seq<Seq<char>>,
}

impl View for LexerResult {
    type V = Record;

    open spec fn view(&self) -> Record {
        Record { text: self.text@, pieces: self.pieces.deep_view() }
    }
}

impl View for SnapshotData {
    type V = Seq<Record>;

    open spec fn view(&self) -> Seq<Record> {
        Seq::new(self.data@.len(), |i: int| self.data@[i]@)
    }
}

impl LexerResult {
    /// Pairs a text with its pieces.
    pub fn new(text: String, pieces: Vec<String>) -> (r: LexerResult)
        ensures
            r@ == (Record { text: text@, pieces: pieces.deep_view() }),
    {
        LexerResult { text, pieces }
    }
}

impl SnapshotData {
    /// A corpus of the given records, in their order.
    pub fn new(data: Vec<LexerResult>) -> (r: SnapshotData)
        ensures
            r.data == data,
    {
        SnapshotData { data }
    }

    /// The number of records.
    pub fn len(&self) -> (n: usize)
        ensures
            n == self@.len(),
    {
        self.data.len()
    }
}

} // verus!
