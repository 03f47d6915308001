//! The boundary to the `fancy_regex` crate, the regex engine. Nothing in
//! this module is proved: each contract here is believed as written. The
//! contracts claim one thing only, that the engine is a function of what it
//! is given. What a pattern matches is left to the engine and has a name
//! here, no definition.

use vstd::prelude::*;

verus! {

/// `fancy_regex::Regex`, a compiled regular expression. Opaque.
#[verifier::external_type_specification]
#[verifier::external_body]
pub struct ExRegex(fancy_regex::Regex);

/// `fancy_regex::Error`, what parsing, compiling or running a regex may
/// report. Opaque.
#[verifier::external_type_specification]
#[verifier::external_body]
pub struct ExRegexError(fancy_regex::Error);

/// What one search of the engine comes back with.
#[derive(Clone, Copy, Debug, PartialEq, Eq)]
pub enum Found {
    /// A match over the bytes `start..end` of the text.
    Hit { start: usize, end: usize },
    /// No match at or after the position searched from.
    Nothing,
    /// The engine gave up with an error.
    Fault,
}

/// What `fancy_regex::Regex::new` makes of a pattern source: the compiled
/// regex, or `None` where the source is refused.
pub uninterp spec fn compiled(source: Seq<char>) -> Option<fancy_regex::Regex>;

/// What `fancy_regex::Regex::find_from_pos` reports when `re` searches
/// `text` from the byte offset `from`.
pub uninterp spec fn search(re: fancy_regex::Regex, text: Seq<char>, from: int) -> Found;

/// Calls `fancy_regex::Regex::new`, which parses and compiles `source` with
/// the default options. The contract only names the outcome: the same source
/// always compiles to the same regex, or is always refused.
#[verifier::external_body]
pub(crate) fn compile(source: &str) -> (r: Result<fancy_regex::Regex, fancy_regex::Error>)
    ensures
        match r {
            Ok(re) => compiled(source@) == Some(re),
            Err(_) => compiled(source@) is None,
        },
{
    fancy_regex::Regex::new(source)
}

/// Calls `fancy_regex::Regex::find_from_pos`, which searches `text` for the
/// first match from the byte offset `from` on, and reads `Match::start` and
/// `Match::end` off a match. It is asked only from an offset between two
/// characters of `text`. The contract only names the outcome: the same regex,
/// text and offset always give the same report. It promises nothing about
/// where a reported match lies.
#[verifier::external_body]
pub(crate) fn find_from(re: &fancy_regex::Regex, text: &str, from: usize) -> (r: Found)
    requires
        vstd::utf8::is_char_boundary(vstd::utf8::encode_utf8(text@), from as int),
    ensures
        r == search(*re, text@, from as int),
{
    match re.find_from_pos(text, from) {
        Ok(Some(m)) => Found::Hit { start: m.start(), end: m.end() },
        Ok(None) => Found::Nothing,
        Err(_) => Found::Fault,
    }
}

} // verus!
