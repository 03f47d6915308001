//! The tokenizer schemes this library knows, each with its name and the
//! source text of its splitting pattern.

use vstd::prelude::*;

verus! {

/// Splitting pattern of the `r50k` scheme. Contraction suffixes are matched
/// in lower case only.
pub const R50K_PAT_STR: &'static str =
    r###"'(?:[sdmt]|ll|ve|re)| ?\p{L}++| ?\p{N}++| ?[^\s\p{L}\p{N}]++|\s++$|\s+(?!\S)|\s"###;

/// Splitting pattern of the `cl100k_base` scheme. Contraction suffixes are
/// matched in either case, digit runs are cut after three digits.
pub const CL100K_BASE_PAT_STR: &'static str =
    r###"'(?i:[sdmt]|ll|ve|re)|[^\r\n\p{L}\p{N}]?+\p{L}++|\p{N}{1,3}+| ?[^\s\p{L}\p{N}]++[\r\n]*+|\s++$|\s*[\r\n]|\s+(?!\S)|\s"###;

/// Splitting pattern of the `o200k_base` scheme. A word keeps its
/// contraction suffix, in either case.
pub const O200K_BASE_PAT_STR: &'static str =
    r###"[^\r\n\p{L}\p{N}]?[\p{Lu}\p{Lt}\p{Lm}\p{Lo}\p{M}]*[\p{Ll}\p{Lm}\p{Lo}\p{M}]+(?i:'s|'t|'re|'ve|'m|'ll|'d)?|[^\r\n\p{L}\p{N}]?[\p{Lu}\p{Lt}\p{Lm}\p{Lo}\p{M}]+[\p{Ll}\p{Lm}\p{Lo}\p{M}]*(?i:'s|'t|'re|'ve|'m|'ll|'d)?|\p{N}{1,3}| ?[^\s\p{L}\p{N}]+[\r\n/]*|\s*[\r\n]+|\s+(?!\S)|\s+"###;

/// A tokenizer scheme with a registered splitting pattern.
#[derive(Clone, Copy, Debug, PartialEq, Eq, Structural)]
pub enum Scheme {
    R50k,
    Cl100kBase,
    O200kBase,
}

/// The scheme registered under `name`, if there is one. Names are compared
/// exactly.
pub open spec fn scheme_named(name: Seq<char>) -> Option<Scheme> {
    if name == "r50k"@ {
        Some(Scheme::R50k)
    } else if name == "cl100k_base"@ {
        Some(Scheme::Cl100kBase)
    } else if name == "o200k_base"@ {
        Some(Scheme::O200kBase)
    } else {
        None
    }
}

impl Scheme {
    /// The name under which the scheme is registered.
    pub open spec fn name_text(self) -> Seq<char> {
        match self {
            Scheme::R50k => "r50k"@,
            Scheme::Cl100kBase => "cl100k_base"@,
            Scheme::O200kBase => "o200k_base"@,
        }
    }

    /// The source text of the scheme's splitting pattern.
    pub open spec fn source_text(self) -> Seq<char> {
        match self {
            Scheme::R50k => R50K_PAT_STR@,
            Scheme::Cl100kBase => CL100K_BASE_PAT_STR@,
            Scheme::O200kBase => O200K_BASE_PAT_STR@,
        }
    }

    /// Looks a scheme up by its name.
    pub fn from_name(name: &str) -> (r: Option<Scheme>)
        ensures
            r == scheme_named(name@),
    {
        let given = name.to_owned();
        if given == "r50k".to_owned() {
            Some(Scheme::R50k)
        } else if given == "cl100k_base".to_owned() {
            Some(Scheme::Cl100kBase)
        } else if given == "o200k_base".to_owned() {
            Some(Scheme::O200kBase)
        } else {
            None
        }
    }

    /// The name under which the scheme is registered, and under which
    /// `from_name` finds it again.
    pub fn name(&self) -> (r: &'static str)
        ensures
            r@ == self.name_text(),
            scheme_named(r@) == Some(*self),
    {
        proof {
            lemma_names_identify_schemes(*self, self.name_text());
        }
        match self {
            Scheme::R50k => "r50k",
            Scheme::Cl100kBase => "cl100k_base",
            Scheme::O200kBase => "o200k_base",
        }
    }

    /// The source text of the scheme's splitting pattern.
    pub fn pattern_source(&self) -> (r: &'static str)
        ensures
            r@ == self.source_text(),
    {
        match self {
            Scheme::R50k => R50K_PAT_STR,
            Scheme::Cl100kBase => CL100K_BASE_PAT_STR,
            Scheme::O200kBase => O200K_BASE_PAT_STR,
        }
    }
}

/// Every scheme is found again under its own name, and a name that finds a
/// scheme is that scheme's name: exactly one pattern per scheme name.
pub proof fn lemma_names_identify_schemes(scheme: Scheme, name: Seq<char>)
    ensures
        scheme_named(scheme.name_text()) == Some(scheme),
        scheme_named(name) == Some(scheme) ==> name == scheme.name_text(),
{
    reveal_strlit("r50k");
    reveal_strlit("cl100k_base");
    reveal_strlit("o200k_base");
    assert("r50k"@.len() == 4);
    assert("cl100k_base"@.len() == 11);
    assert("o200k_base"@.len() == 10);
}

} // verus!
