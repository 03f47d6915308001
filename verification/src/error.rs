//! What can go wrong between a scheme name and the pieces of a text.

use vstd::prelude::*;

verus! {

/// The failures of the pattern library and of the tokenizer.
#[derive(Clone, Copy, Debug, PartialEq, Eq, Structural)]
pub enum LexError {
    /// No pattern is registered under the requested scheme name.
    UnknownScheme,
    /// The engine refused the pattern source of a registered scheme.
    PatternCompileError,
    /// The engine gave up in the middle of a text, or reported a match that
    /// does not lie in the text where it searched.
    MatchEngineError,
}

impl LexError {
    /// What a message for this failure says.
    pub open spec fn message_text(self) -> Seq<char> {
        match self {
            LexError::UnknownScheme => "no pattern is registered under this scheme name"@,
            LexError::PatternCompileError => "the pattern of this scheme does not compile"@,
            LexError::MatchEngineError => "the regex engine failed while matching"@,
        }
    }

    /// A short message for this failure.
    pub fn message(&self) -> (r: &'static str)
        ensures
            r@ == self.message_text(),
    {
        match self {
            LexError::UnknownScheme => "no pattern is registered under this scheme name",
            LexError::PatternCompileError => "the pattern of this scheme does not compile",
            LexError::MatchEngineError => "the regex engine failed while matching",
        }
    }
}

} // verus!
