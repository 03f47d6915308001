//! The pattern library: one compiled pattern per scheme.

use vstd::prelude::*;
use crate::engine::{compile, compiled};
use crate::error::LexError;
use crate::scheme::{scheme_named, Scheme};

verus! {

/// The compiled splitting pattern of a scheme. A pattern holds the regex
/// that the engine compiled from its scheme's source, and never changes.
pub struct Pattern {
    scheme: Scheme,
    regex: fancy_regex::Regex,
}

/// The regex that the engine compiles from the pattern source of `scheme`.
/// Meaningful for a scheme whose source compiles.
pub open spec fn regex_of(scheme: Scheme) -> fancy_regex::Regex {
    compiled(scheme.source_text()).unwrap()
}

/// What the pattern library answers for a scheme name.
pub open spec fn lookup(name: Seq<char>) -> Result<Scheme, LexError> {
    match scheme_named(name) {
        None => Err(LexError::UnknownScheme),
        Some(scheme) => if compiled(scheme.source_text()) is Some {
            Ok(scheme)
        } else {
            Err(LexError::PatternCompileError)
        },
    }
}

impl View for Pattern {
    type V = Scheme;

    /// A pattern stands for the scheme it was compiled for.
    closed spec fn view(&self) -> Scheme {
        self.scheme
    }
}

impl Pattern {
    /// The pattern holds the regex compiled from its scheme's source.
    pub closed spec fn wf(&self) -> bool {
        compiled(self.scheme.source_text()) == Some(self.regex)
    }

    #[verifier::type_invariant]
    spec fn holds_its_scheme_regex(&self) -> bool {
        self.wf()
    }

    /// Makes the pattern of `scheme` out of what the engine made of that
    /// scheme's source: the pattern with the compiled regex, or
    /// `PatternCompileError` where the engine refused the source.
    pub fn from_compiled(
        scheme: Scheme,
        outcome: Result<fancy_regex::Regex, fancy_regex::Error>,
    ) -> (r: Result<Pattern, LexError>)
        requires
            outcome matches Ok(regex) ==> compiled(scheme.source_text()) == Some(regex),
        ensures
            match r {
                Ok(pattern) => outcome is Ok && pattern.wf() && pattern@ == scheme,
                Err(error) => outcome is Err && error == LexError::PatternCompileError,
            },
    {
        match outcome {
            Ok(regex) => Ok(Pattern { scheme, regex }),
            Err(_) => Err(LexError::PatternCompileError),
        }
    }

    /// Compiles the pattern of `scheme`.
    pub fn for_scheme(scheme: Scheme) -> (r: Result<Pattern, LexError>)
        ensures
            match r {
                Ok(pattern) => pattern.wf() && pattern@ == scheme && compiled(
                    scheme.source_text(),
                ) is Some,
                Err(error) => error == LexError::PatternCompileError && compiled(
                    scheme.source_text(),
                ) is None,
            },
    {
        Pattern::from_compiled(scheme, compile(scheme.pattern_source()))
    }

    /// The compiled pattern registered under `scheme_name`.
    pub fn get(scheme_name: &str) -> (r: Result<Pattern, LexError>)
        ensures
            match r {
                Ok(pattern) => pattern.wf() && lookup(scheme_name@) == Ok::<Scheme, LexError>(
                    pattern@,
                ),
                Err(error) => lookup(scheme_name@) == Err::<Scheme, LexError>(error),
            },
    {
        match Scheme::from_name(scheme_name) {
            None => Err(LexError::UnknownScheme),
            Some(scheme) => Pattern::for_scheme(scheme),
        }
    }

    /// The scheme this pattern was compiled for.
    pub fn scheme(&self) -> (r: Scheme)
        ensures
            r == self@,
    {
        self.scheme
    }

    /// The regex to hand to the engine.
    pub(crate) fn engine(&self) -> (r: &fancy_regex::Regex)
        ensures
            *r == regex_of(self@),
    {
        proof {
            use_type_invariant(self);
        }
        &self.regex
    }
}

} // verus!
