//! What the tokenizer hands to the parser: tokens, and the errors it met.

pub mod token;

use crate::ast::Span;
use vstd::prelude::*;

verus! {

/// What was wrong with a piece of source text.
#[derive(Clone, Copy, Debug, PartialEq, Eq, Structural)]
pub enum LexErrorKind {
    /// A character that starts no token.
    UnexpectedCharacter,
    /// A string literal without its closing quote.
    UnterminatedString,
}

/// A piece of source text that is no token.
#[derive(Clone, Copy, Debug, PartialEq, Eq, Structural)]
pub struct LexError {
    pub kind: LexErrorKind,
    pub span: Span,
}

} // verus!
