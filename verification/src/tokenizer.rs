//! The tokenizer: the matches of a pattern in a text, one after the other
//! from left to right, and the pieces of text they cover.
//!
//! The engine is asked for one match at a time, each search starting where
//! the scan stands. What the scan does with the outcome of a search is the
//! rule `step`; it is the same for every pattern and fully proved. Which
//! bytes a pattern matches is the engine's matter and only named here.

use vstd::prelude::*;
use crate::engine::{find_from, search, Found};
use crate::error::LexError;
use crate::pattern::{lookup, regex_of, Pattern};
use crate::scheme::Scheme;
use crate::text::{
    boundary_after, byte_count, byte_len, chars_between, is_boundary, lemma_boundary_after,
    lemma_ends_on_boundary, next_boundary, on_boundary, slice, whole_chars,
};

verus! {

/// One match: the bytes `start..end` of the text.
#[derive(Clone, Copy, Debug, PartialEq, Eq, Structural)]
pub struct Span {
    pub start: usize,
    pub end: usize,
}

/// Where a scan stands: the offset `at` from which the next search starts,
/// and the end of the match that was last handed out, if any.
#[derive(Clone, Copy, Debug, PartialEq, Eq)]
pub struct Cursor {
    pub at: usize,
    pub last_end: Option<usize>,
}

/// What a scan does with the outcome of one search.
#[derive(Clone, Copy, Debug, PartialEq, Eq)]
pub enum Step {
    /// Hand `span` out. The scan goes on from `next`, or is over where
    /// `next` is `None`.
    Emit { span: Span, next: Option<Cursor> },
    /// Hand nothing out and go on from `to`.
    Skip { to: Cursor },
    /// The scan is over.
    Stop,
    /// The scan fails.
    Fail,
}

/// The cursor at the start of a text.
pub open spec fn start_cursor() -> Cursor {
    Cursor { at: 0, last_end: None }
}

/// Whether `cursor` may stand in `text`: it stands between two characters,
/// not before the end of the match last handed out.
pub open spec fn cursor_in(text: Seq<char>, cursor: Cursor) -> bool {
    &&& on_boundary(text, cursor.at as int)
    &&& cursor.last_end matches Some(last) ==> last <= cursor.at
}

/// Whether a match reported for a search from `from` can be taken: it does
/// not begin before `from` and covers whole characters of `text`.
pub open spec fn placed(text: Seq<char>, from: int, start: int, end: int) -> bool {
    from <= start && whole_chars(text, start, end)
}

/// The rule of the scan. A fault of the engine, or a match that is not
/// `placed`, fails the scan; no match ends it. A match that covers text is
/// handed out and the scan resumes at its end. An empty match moves the scan
/// one code point on, so that every step makes progress; it is handed out
/// unless it lies at the end of the match handed out before it.
pub open spec fn step(text: Seq<char>, cursor: Cursor, found: Found) -> Step {
    match found {
        Found::Fault => Step::Fail,
        Found::Nothing => Step::Stop,
        Found::Hit { start, end } => {
            let span = Span { start, end };
            let repeated = cursor.last_end == Some(end);
            if !placed(text, cursor.at as int, start as int, end as int) {
                Step::Fail
            } else if start < end {
                Step::Emit { span, next: Some(Cursor { at: end, last_end: Some(end) }) }
            } else if end == byte_count(text) {
                if repeated {
                    Step::Stop
                } else {
                    Step::Emit { span, next: None }
                }
            } else {
                let at = boundary_after(text, end as int) as usize;
                let next = Cursor { at, last_end: Some(end) };
                if repeated {
                    Step::Skip { to: next }
                } else {
                    Step::Emit { span, next: Some(next) }
                }
            }
        },
    }
}

/// The matches that a scan of `text` with `re` hands out from `cursor` on,
/// or `None` where the scan fails. Each search is the engine's, from the
/// cursor's offset; `step` decides what follows from its outcome.
pub open spec fn scan(re: fancy_regex::Regex, text: Seq<char>, cursor: Cursor) -> Option<Seq<Span>>
    decreases byte_count(text) - cursor.at,
    when byte_count(text) <= usize::MAX
    via scan_decreases
{
    match step(text, cursor, search(re, text, cursor.at as int)) {
        Step::Fail => None,
        Step::Stop => Some(Seq::empty()),
        Step::Skip { to } => scan(re, text, to),
        Step::Emit { span, next: None } => Some(seq![span]),
        Step::Emit { span, next: Some(next) } => match scan(re, text, next) {
            None => None,
            Some(rest) => Some(seq![span] + rest),
        },
    }
}

#[via_fn]
proof fn scan_decreases(re: fancy_regex::Regex, text: Seq<char>, cursor: Cursor) {
    lemma_step_advances(text, cursor, search(re, text, cursor.at as int));
}

/// Forward progress: whatever the engine reports, the cursor that `step`
/// goes on from lies behind the one it came from, within the text and
/// between two characters.
pub proof fn lemma_step_advances(text: Seq<char>, cursor: Cursor, found: Found)
    requires
        byte_count(text) <= usize::MAX,
    ensures
        match step(text, cursor, found) {
            Step::Skip { to } => cursor.at < to.at && cursor_in(text, to),
            Step::Emit { span, next: Some(next) } => cursor.at < next.at && cursor_in(text, next),
            _ => true,
        },
{
    if let Found::Hit { start, end } = found {
        let taken = placed(text, cursor.at as int, start as int, end as int);
        if taken && start == end && end < byte_count(text) {
            lemma_boundary_after(text, end as int);
        }
    }
}

/// Whether `spans` lie in `text` in order, at or behind `from`: each covers
/// whole characters, none begins before the one before it has ended, and
/// each ends behind the one before it.
pub open spec fn in_order(text: Seq<char>, from: int, spans: Seq<Span>) -> bool {
    &&& forall|i: int|
        #![trigger spans[i]]
        0 <= i < spans.len() ==> placed(text, from, spans[i].start as int, spans[i].end as int)
    &&& forall|i: int, j: int|
        #![trigger spans[i], spans[j]]
        0 <= i < j < spans.len() ==> spans[i].end <= spans[j].start && spans[i].end
            < spans[j].end
}

/// Whether each of `spans` ends behind `last`, where there is a `last`.
pub open spec fn end_behind(last: Option<usize>, spans: Seq<Span>) -> bool {
    forall|i: int|
        #![trigger spans[i]]
        0 <= i < spans.len() && last is Some ==> last.unwrap() < spans[i].end
}

/// Order preservation: the matches of a scan lie in the text in order, at or
/// behind the scan's cursor, and end behind the match that was handed out
/// before them.
pub proof fn lemma_scan_in_order(re: fancy_regex::Regex, text: Seq<char>, cursor: Cursor)
    requires
        byte_count(text) <= usize::MAX,
        cursor_in(text, cursor),
    ensures
        scan(re, text, cursor) matches Some(spans) ==> in_order(text, cursor.at as int, spans)
            && end_behind(cursor.last_end, spans),
    decreases byte_count(text) - cursor.at,
{
    let found = search(re, text, cursor.at as int);
    lemma_step_advances(text, cursor, found);
    match step(text, cursor, found) {
        Step::Skip { to } => {
            lemma_scan_in_order(re, text, to);
        },
        Step::Emit { span, next: Some(next) } => {
            lemma_scan_in_order(re, text, next);
            if let Some(rest) = scan(re, text, next) {
                let spans = seq![span] + rest;
                assert forall|i: int| 0 < i < spans.len() implies spans[i] == rest[i - 1] by {}
                assert(in_order(text, cursor.at as int, spans));
                assert(end_behind(cursor.last_end, spans));
            }
        },
        _ => {},
    }
}

/// Matches that lie in order are few: at most one more than the text has
/// bytes from `from` on. A scan cannot hand out matches without end.
pub proof fn lemma_in_order_count(text: Seq<char>, from: int, spans: Seq<Span>)
    requires
        in_order(text, from, spans),
        from <= byte_count(text),
    ensures
        spans.len() <= byte_count(text) - from + 1,
{
    if spans.len() > 0 {
        lemma_ends_climb(text, from, spans, spans.len() - 1);
    }
}

/// The end of each match in order lies at least as many bytes behind `from`
/// as matches come before it.
proof fn lemma_ends_climb(text: Seq<char>, from: int, spans: Seq<Span>, i: int)
    requires
        in_order(text, from, spans),
        0 <= i < spans.len(),
    ensures
        from + i <= spans[i].end <= byte_count(text),
    decreases i,
{
    if i > 0 {
        lemma_ends_climb(text, from, spans, i - 1);
        assert(spans[i - 1].end < spans[i].end);
    }
}

/// The text that each of `spans` covers.
pub open spec fn pieces_of(text: Seq<char>, spans: Seq<Span>) -> Seq<Seq<char>> {
    Seq::new(spans.len(), |i: int| chars_between(text, spans[i].start as int, spans[i].end as int))
}

/// The matches of the pattern of `scheme` in `text`, from its start to its
/// end, or `None` where the scan fails.
pub open spec fn spans_in(scheme: Scheme, text: Seq<char>) -> Option<Seq<Span>> {
    scan(regex_of(scheme), text, start_cursor())
}

/// The pieces into which the pattern of `scheme` splits `text`, or `None`
/// where the scan fails.
pub open spec fn pieces_in(scheme: Scheme, text: Seq<char>) -> Option<Seq<Seq<char>>> {
    match spans_in(scheme, text) {
        None => None,
        Some(spans) => Some(pieces_of(text, spans)),
    }
}

/// Whether `r` is what splitting `text` with the pattern of `scheme` gives:
/// the pieces where the scan succeeds, `MatchEngineError` where it fails.
pub open spec fn is_split_of(
    scheme: Scheme,
    text: Seq<char>,
    r: Result<Vec<String>, LexError>,
) -> bool {
    match r {
        Ok(pieces) => pieces_in(scheme, text) == Some(pieces.deep_view()),
        Err(error) => error == LexError::MatchEngineError && pieces_in(scheme, text) is None,
    }
}

/// Decides what the scan does with `found`, the outcome of a search of
/// `text` from `cursor.at`.
pub fn advance(text: &str, cursor: Cursor, found: Found) -> (r: Step)
    ensures
        r == step(text@, cursor, found),
{
    match found {
        Found::Fault => Step::Fail,
        Found::Nothing => Step::Stop,
        Found::Hit { start, end } => {
            let span = Span { start, end };
            let repeated = match cursor.last_end {
                Some(last) => last == end,
                None => false,
            };
            let taken = cursor.at <= start && start <= end && is_boundary(text, start)
                && is_boundary(text, end);
            if !taken {
                Step::Fail
            } else if start < end {
                Step::Emit { span, next: Some(Cursor { at: end, last_end: Some(end) }) }
            } else if end == byte_len(text) {
                if repeated {
                    Step::Stop
                } else {
                    Step::Emit { span, next: None }
                }
            } else {
                let next = Cursor { at: next_boundary(text, end), last_end: Some(end) };
                if repeated {
                    Step::Skip { to: next }
                } else {
                    Step::Emit { span, next: Some(next) }
                }
            }
        },
    }
}

/// The matches of `pattern` in `text`, from left to right, none overlapping
/// another. Fails where the engine fails.
pub fn split_spans(pattern: &Pattern, text: &str) -> (r: Result<Vec<Span>, LexError>)
    ensures
        match r {
            Ok(spans) => {
                &&& spans_in(pattern@, text@) == Some(spans@)
                &&& in_order(text@, 0, spans@)
                &&& spans@.len() <= byte_count(text@) + 1
            },
            Err(error) => error == LexError::MatchEngineError && spans_in(pattern@, text@)
                is None,
        },
{
    let re = pattern.engine();
    let n = byte_len(text);
    let mut spans: Vec<Span> = Vec::new();
    let mut cursor = Cursor { at: 0, last_end: None };
    proof {
        lemma_ends_on_boundary(text@);
        lemma_scan_in_order(*re, text@, start_cursor());
        if let Some(rest) = scan(*re, text@, cursor) {
            lemma_in_order_count(text@, 0, rest);
            assert(spans@ + rest =~= rest);
        }
    }
    loop
        invariant
            n == byte_count(text@),
            *re == regex_of(pattern@),
            cursor_in(text@, cursor),
            spans_in(pattern@, text@) matches Some(all) ==> in_order(text@, 0, all) && all.len()
                <= n + 1,
            spans_in(pattern@, text@) == match scan(*re, text@, cursor) {
                None => None::<Seq<Span>>,
                Some(rest) => Some(spans@ + rest),
            },
        decreases n - cursor.at,
    {
        let found = find_from(re, text, cursor.at);
        let ghost before = spans@;
        proof {
            lemma_step_advances(text@, cursor, found);
        }
        match advance(text, cursor, found) {
            Step::Fail => {
                return Err(LexError::MatchEngineError);
            },
            Step::Stop => {
                assert(before + Seq::<Span>::empty() =~= before);
                return Ok(spans);
            },
            Step::Skip { to } => {
                cursor = to;
            },
            Step::Emit { span, next } => {
                spans.push(span);
                match next {
                    None => {
                        assert(before + seq![span] =~= spans@);
                        return Ok(spans);
                    },
                    Some(next) => {
                        proof {
                            if let Some(rest) = scan(*re, text@, next) {
                                assert(before + (seq![span] + rest) =~= spans@ + rest);
                            }
                        }
                        cursor = next;
                    },
                }
            },
        }
    }
}

/// The text that each of `spans` covers in `text`, or `None` where one of
/// them does not cover whole characters of `text`.
pub fn pieces_at(text: &str, spans: &Vec<Span>) -> (r: Option<Vec<String>>)
    ensures
        r is Some <==> forall|i: int|
            #![trigger spans@[i]]
            0 <= i < spans@.len() ==> whole_chars(
                text@,
                spans@[i].start as int,
                spans@[i].end as int,
            ),
        r matches Some(pieces) ==> pieces.deep_view() == pieces_of(text@, spans@),
{
    let mut pieces: Vec<String> = Vec::new();
    let mut i: usize = 0;
    while i < spans.len()
        invariant
            i <= spans@.len(),
            pieces@.len() == i,
            forall|k: int|
                #![trigger spans@[k]]
                0 <= k < i ==> whole_chars(text@, spans@[k].start as int, spans@[k].end as int),
            forall|k: int|
                #![trigger pieces@[k]]
                0 <= k < i ==> pieces@[k]@ == chars_between(
                    text@,
                    spans@[k].start as int,
                    spans@[k].end as int,
                ),
        decreases spans@.len() - i,
    {
        let span = spans[i];
        let whole = span.start <= span.end && is_boundary(text, span.start) && is_boundary(
            text,
            span.end,
        );
        if !whole {
            return None;
        }
        pieces.push(slice(text, span.start, span.end));
        i = i + 1;
    }
    assert(pieces.deep_view() =~= pieces_of(text@, spans@));
    Some(pieces)
}

/// Splits `text` into pieces with `pattern`: the text of each match, in the
/// order of the matches. Fails where the engine fails.
pub fn split(pattern: &Pattern, text: &str) -> (r: Result<Vec<String>, LexError>)
    ensures
        is_split_of(pattern@, text@, r),
{
    match split_spans(pattern, text) {
        Err(error) => Err(error),
        Ok(spans) => match pieces_at(text, &spans) {
            Some(pieces) => Ok(pieces),
            None => Err(LexError::MatchEngineError),
        },
    }
}

/// Determinism: two patterns got under one scheme name split one text in one
/// way. Both runs fail, or both succeed with the same pieces in the same
/// order.
pub proof fn lemma_split_deterministic(
    scheme_name: Seq<char>,
    text: Seq<char>,
    first_pattern: Pattern,
    second_pattern: Pattern,
    first: Result<Vec<String>, LexError>,
    second: Result<Vec<String>, LexError>,
)
    requires
        lookup(scheme_name) == Ok::<Scheme, LexError>(first_pattern@),
        lookup(scheme_name) == Ok::<Scheme, LexError>(second_pattern@),
        is_split_of(first_pattern@, text, first),
        is_split_of(second_pattern@, text, second),
    ensures
        match (first, second) {
            (Ok(a), Ok(b)) => a.deep_view() == b.deep_view(),
            (Err(a), Err(b)) => a == b,
            _ => false,
        },
{
}

} // verus!
