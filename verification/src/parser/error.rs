//! Why parsing can fail.

use crate::ast::Span;
use crate::lexer::{LexError, LexErrorKind};
use vstd::prelude::*;

verus! {

/// What went wrong.
#[derive(Debug, PartialEq, Eq)]
pub enum ParseErrorKind {
    /// The tokenizer met something that is no token.
    LexError(LexErrorKind),
    /// The tokens are not a program; the text says what was expected.
    Error(String),
}

pub enum ParseErrorKindModel {
    LexError(LexErrorKind),
    Error(Seq<char>),
}

/// A failure of parsing, with the place where it was met.
#[derive(Debug, PartialEq, Eq)]
pub struct ParseError {
    pub kind: ParseErrorKind,
    pub span: Span,
}

pub struct ParseErrorModel {
    pub kind: ParseErrorKindModel,
    pub span: Span,
}

impl View for ParseError {
    type V = ParseErrorModel;

    open spec fn view(&self) -> ParseErrorModel {
        ParseErrorModel {
            kind: match self.kind {
                ParseErrorKind::LexError(kind) => ParseErrorKindModel::LexError(kind),
                ParseErrorKind::Error(text) => ParseErrorKindModel::Error(text@),
            },
            span: self.span,
        }
    }
}

/// The failure with the message `text` at `span`.
pub open spec fn error_at(text: Seq<char>, span: Span) -> ParseErrorModel {
    ParseErrorModel { kind: ParseErrorKindModel::Error(text), span }
}

/// The failure that an error of the tokenizer becomes.
pub open spec fn lex_failure(error: LexError) -> ParseErrorModel {
    ParseErrorModel { kind: ParseErrorKindModel::LexError(error.kind), span: error.span }
}

} // verus!
