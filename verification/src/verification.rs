//! Verification of a pattern against a corpus: splits every text of the
//! corpus and holds the pieces against the recorded ones, in corpus order,
//! up to the first record that fails.

use vstd::prelude::*;
use crate::compare::{compare_pieces, reports_first_difference, Difference};
use crate::corpus::{Record, SnapshotData};
use crate::error::LexError;
use crate::pattern::{lookup, Pattern};
use crate::scheme::Scheme;
use crate::tokenizer::{pieces_in, split};

verus! {

/// How the check of a corpus ended.
#[derive(Clone, Debug, PartialEq, Eq)]
pub enum VerificationOutcome {
    /// Every record split into its recorded pieces. `verified` counts the
    /// records.
    Success { verified: usize },
    /// The record at index `record` is the first whose text does not split
    /// into its recorded pieces. No record behind it was checked.
    Mismatch {
        record: usize,
        text: String,
        expected: Vec<String>,
        actual: Vec<String>,
        difference: Difference,
    },
    /// The check could not be made, or not be finished: no pattern for the
    /// scheme (`at` is `None`), or the engine failed on the text of the
    /// record at index `at`. No record behind it was checked.
    Failed { error: LexError, at: Option<usize> },
}

/// Whether the text of `record` splits into its recorded pieces under the
/// pattern of `scheme`.
pub open spec fn passes(scheme: Scheme, record: Record) -> bool {
    pieces_in(scheme, record.text) == Some(record.pieces)
}

/// Whether every record before index `upto` passes.
pub open spec fn all_pass_before(scheme: Scheme, corpus: Seq<Record>, upto: int) -> bool {
    forall|i: int| 0 <= i < upto ==> passes(scheme, #[trigger] corpus[i])
}

/// Whether `outcome` is what checking `corpus` against the pattern of
/// `scheme` comes to. Success needs every record to pass. Otherwise the
/// outcome is about the first record that does not: a mismatch with that
/// record's text, its recorded pieces, the pieces its text splits into and
/// their first difference, or the engine's failure on its text.
pub open spec fn is_outcome_of(
    scheme: Scheme,
    corpus: Seq<Record>,
    outcome: VerificationOutcome,
) -> bool {
    match outcome {
        VerificationOutcome::Success { verified } => {
            &&& verified == corpus.len()
            &&& all_pass_before(scheme, corpus, corpus.len() as int)
        },
        VerificationOutcome::Mismatch { record, text, expected, actual, difference } => {
            &&& record < corpus.len()
            &&& all_pass_before(scheme, corpus, record as int)
            &&& !passes(scheme, corpus[record as int])
            &&& text@ == corpus[record as int].text
            &&& expected.deep_view() == corpus[record as int].pieces
            &&& pieces_in(scheme, corpus[record as int].text) == Some(actual.deep_view())
            &&& reports_first_difference(expected.deep_view(), actual.deep_view(), difference)
        },
        VerificationOutcome::Failed { error, at } => {
            &&& error == LexError::MatchEngineError
            &&& at matches Some(record)
            &&& record < corpus.len()
            &&& all_pass_before(scheme, corpus, record as int)
            &&& pieces_in(scheme, corpus[record as int].text) is None
        },
    }
}

/// Whether `outcome` is what checking `corpus` under `scheme_name` comes to:
/// the failure of the pattern library where it has no pattern to give, and
/// else the outcome of the check against that scheme's pattern.
pub open spec fn is_verdict_of(
    scheme_name: Seq<char>,
    corpus: Seq<Record>,
    outcome: VerificationOutcome,
) -> bool {
    match lookup(scheme_name) {
        Err(error) => outcome == (VerificationOutcome::Failed { error, at: None }),
        Ok(scheme) => is_outcome_of(scheme, corpus, outcome),
    }
}

/// The index of the record that an outcome is about, if it is about one.
pub open spec fn reported_record(outcome: VerificationOutcome) -> Option<int> {
    match outcome {
        VerificationOutcome::Success { .. } => None,
        VerificationOutcome::Mismatch { record, .. } => Some(record as int),
        VerificationOutcome::Failed { at: Some(record), .. } => Some(record as int),
        VerificationOutcome::Failed { at: None, .. } => None,
    }
}

/// Fail-fast ordering: where `first` is the first record of the corpus that
/// does not pass, the outcome of the check is about that record and no
/// other. Where its text splits, the outcome is a mismatch with that
/// record's text, its recorded pieces and the pieces the text splits into;
/// where the engine fails on its text, the outcome is that failure.
pub proof fn lemma_first_failure_reported(
    scheme: Scheme,
    corpus: Seq<Record>,
    outcome: VerificationOutcome,
    first: int,
)
    requires
        is_outcome_of(scheme, corpus, outcome),
        0 <= first < corpus.len(),
        all_pass_before(scheme, corpus, first),
        !passes(scheme, corpus[first]),
    ensures
        reported_record(outcome) == Some(first),
        match pieces_in(scheme, corpus[first].text) {
            Some(pieces) => {
                &&& outcome matches VerificationOutcome::Mismatch { text, expected, actual, .. }
                &&& text@ == corpus[first].text
                &&& expected.deep_view() == corpus[first].pieces
                &&& actual.deep_view() == pieces
            },
            None => outcome == (VerificationOutcome::Failed {
                error: LexError::MatchEngineError,
                at: Some(first as usize),
            }),
        },
{
    let reported = reported_record(outcome);
    assert(reported is Some);
    if reported.unwrap() < first {
        assert(passes(scheme, corpus[reported.unwrap()]));
    } else if first < reported.unwrap() {
        assert(passes(scheme, corpus[first]));
    }
}

/// Checks `corpus` against `pattern`, record by record in corpus order, and
/// stops at the first record that does not pass.
pub fn verify_with(pattern: &Pattern, corpus: &SnapshotData) -> (outcome: VerificationOutcome)
    ensures
        is_outcome_of(pattern@, corpus@, outcome),
{
    let mut index: usize = 0;
    while index < corpus.data.len()
        invariant
            index <= corpus@.len(),
            all_pass_before(pattern@, corpus@, index as int),
        decreases corpus@.len() - index,
    {
        let expected = &corpus.data[index];
        assert(expected@ == corpus@[index as int]);
        match split(pattern, expected.text.as_str()) {
            Err(error) => {
                return VerificationOutcome::Failed { error, at: Some(index) };
            },
            Ok(actual) => {
                match compare_pieces(&expected.pieces, &actual) {
                    Some(difference) => {
                        return VerificationOutcome::Mismatch {
                            record: index,
                            text: expected.text.clone(),
                            expected: expected.pieces.clone(),
                            actual,
                            difference,
                        };
                    },
                    None => {},
                }
            },
        }
        index = index + 1;
    }
    VerificationOutcome::Success { verified: index }
}

/// Checks `corpus` against the pattern registered under `scheme_name`.
pub fn verify(scheme_name: &str, corpus: &SnapshotData) -> (outcome: VerificationOutcome)
    ensures
        is_verdict_of(scheme_name@, corpus@, outcome),
{
    match Pattern::get(scheme_name) {
        Err(error) => VerificationOutcome::Failed { error, at: None },
        Ok(pattern) => verify_with(&pattern, corpus),
    }
}

} // verus!
