//! Tokens.

use crate::ast::{Ident, IdentModel, Span};
use vstd::prelude::*;

verus! {

/// The kind of a token.
#[derive(Clone, Copy, Debug, PartialEq, Eq, Structural)]
pub enum TokenKind {
    Comment,
    Eof,
    Ident,
    String,
    Integer,
    OpenParen,
    CloseParen,
    OpenBrace,
    CloseBrace,
    Colon,
    Comma,
    Semicolon,
    RightArrow,
}

/// A token: its kind, its text, and where it stands.
#[derive(Debug, PartialEq, Eq)]
pub struct Token {
    pub kind: TokenKind,
    pub lexeme: String,
    pub span: Span,
}

/// A [`Token`] with its text as a sequence of characters.
pub struct TokenModel {
    pub kind: TokenKind,
    pub lexeme: Seq<char>,
    pub span: Span,
}

impl View for Token {
    type V = TokenModel;

    open spec fn view(&self) -> TokenModel {
        TokenModel { kind: self.kind, lexeme: self.lexeme@, span: self.span }
    }
}

impl Clone for Token {
    fn clone(&self) -> (copy: Self)
        ensures
            copy == *self,
    {
        Token { kind: self.kind, lexeme: self.lexeme.clone(), span: self.span }
    }
}

impl TokenModel {
    /// The token before the first token of any input: an end of input
    /// without text at the start of the source.
    pub open spec fn dummy() -> TokenModel {
        TokenModel { kind: TokenKind::Eof, lexeme: Seq::empty(), span: Span::dummy() }
    }

    /// The end of input that follows a token at `span`: without text, one
    /// position wide, directly behind `span`.
    pub open spec fn eof_after(span: Span) -> TokenModel {
        TokenModel { kind: TokenKind::Eof, lexeme: Seq::empty(), span: span.following() }
    }

    /// The identifier that the token is, if it is one.
    pub open spec fn ident(self) -> Option<IdentModel> {
        if self.kind == TokenKind::Ident {
            Some(IdentModel { name: self.lexeme, span: self.span })
        } else {
            None
        }
    }

    /// Whether the token is the keyword `keyword`: an identifier of that
    /// name.
    pub open spec fn is_keyword(self, keyword: IdentModel) -> bool {
        self.kind == TokenKind::Ident && self.lexeme == keyword.name
    }
}

impl Token {
    /// The token before the first token of any input.
    pub fn dummy() -> (token: Token)
        ensures
            token@ == TokenModel::dummy(),
    {
        Token { kind: TokenKind::Eof, lexeme: String::new(), span: Span::dummy() }
    }

    /// The end of input that follows a token at `span`.
    pub fn eof_after(span: Span) -> (token: Token)
        ensures
            token@ == TokenModel::eof_after(span),
    {
        Token { kind: TokenKind::Eof, lexeme: String::new(), span: span.after() }
    }

    /// The identifier that the token is, if it is one.
    pub fn ident(&self) -> (ident: Option<Ident>)
        ensures
            match ident {
                Some(ident) => self@.ident() == Some(ident@),
                None => self@.ident() is None,
            },
    {
        match self.kind {
            TokenKind::Ident => Some(Ident { name: self.lexeme.clone(), span: self.span }),
            _ => None,
        }
    }

    /// Whether the token is the keyword `keyword`.
    pub fn is_keyword(&self, keyword: &Ident) -> (b: bool)
        ensures
            b == self@.is_keyword(keyword@),
    {
        match self.kind {
            TokenKind::Ident => self.lexeme == keyword.name,
            _ => false,
        }
    }
}

} // verus!
