//! Pre-tokenization for byte-pair-encoding tokenizers: splitting text into
//! pieces with the fixed regular expression of a tokenizer scheme, and
//! holding the pieces against recorded results.
//!
//! - [`scheme`]: the schemes and the source text of their patterns.
//! - [`pattern`]: the pattern library, one compiled pattern per scheme.
//! - [`tokenizer`]: the matches of a pattern in a text and their pieces.
//! - [`compare`]: the first difference between two sequences of pieces.
//! - [`corpus`]: recorded results.
//! - [`verification`]: a corpus held against a pattern, up to the first
//!   record that fails.
//! - [`text`]: byte offsets into text.
//! - [`engine`]: the boundary to the regex engine.
//! - [`error`]: the failures.

pub mod compare;
pub mod corpus;
pub mod engine;
pub mod error;
pub mod pattern;
pub mod scheme;
pub mod text;
pub mod tokenizer;
pub mod verification;
