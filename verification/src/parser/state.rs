//! The state of the parser as a value, and what each step does to it.

use crate::ast::IdentModel;
use crate::lexer::token::{TokenKind, TokenModel};
use crate::lexer::LexError;
use crate::parser::error::{error_at, lex_failure, ParseErrorModel};
use vstd::prelude::*;

verus! {

/// What the parser would have accepted where it stood.
pub enum ExpectedModel {
    Token(TokenKind),
    Keyword(IdentModel),
    Ident,
}

/// The state of the parser: the input that it has not read yet, the errors
/// of the tokenizer that it has met, what it looked for in vain, and the
/// current and the previous token.
pub struct ParserModel {
    pub rest: Seq<Result<TokenModel, LexError>>,
    pub lex_errors: Seq<LexError>,
    pub expected: Seq<ExpectedModel>,
    pub token: TokenModel,
    pub prev_token: TokenModel,
}

/// Whether an entry of the input is a comment.
pub open spec fn is_comment(entry: Result<TokenModel, LexError>) -> bool {
    entry matches Ok(token) && token.kind == TokenKind::Comment
}

/// The index of the first entry of `rest`, from `from` on, that is no
/// comment; the length of `rest` where all are comments.
pub open spec fn skip_comments(rest: Seq<Result<TokenModel, LexError>>, from: nat) -> nat
    decreases rest.len() - from,
{
    if from < rest.len() && is_comment(rest[from as int]) {
        skip_comments(rest, from + 1)
    } else {
        from
    }
}

impl ParserModel {
    /// The state before the first token of `input` is read.
    pub open spec fn initial(input: Seq<Result<TokenModel, LexError>>) -> ParserModel {
        ParserModel {
            rest: input,
            lex_errors: Seq::empty(),
            expected: Seq::empty(),
            token: TokenModel::dummy(),
            prev_token: TokenModel::dummy(),
        }
    }

    /// The state of a new parser on `input`: the first token is read.
    pub open spec fn start(input: Seq<Result<TokenModel, LexError>>) -> ParserModel {
        ParserModel::initial(input).advance()
    }

    /// How much is left to read: the unread entries, and the current token
    /// unless it is the end of input.
    pub open spec fn pending(self) -> nat {
        self.rest.len() + if self.token.kind == TokenKind::Eof {
            0nat
        } else {
            1nat
        }
    }

    /// Whether the current token is the end of input.
    pub open spec fn is_at_end(self) -> bool {
        self.token.kind == TokenKind::Eof
    }

    /// The state after reading on to the next token. Comments are passed
    /// over. The next entry becomes the current token; where it is an error
    /// of the tokenizer, the error is kept and the current token is an end
    /// of input, as it is where no entry is left.
    pub open spec fn advance(self) -> ParserModel {
        let next = skip_comments(self.rest, 0);
        if next >= self.rest.len() {
            ParserModel {
                rest: Seq::empty(),
                lex_errors: self.lex_errors,
                expected: self.expected,
                token: TokenModel::eof_after(self.token.span),
                prev_token: self.token,
            }
        } else {
            match self.rest[next as int] {
                Ok(token) => ParserModel {
                    rest: self.rest.skip(next as int + 1),
                    lex_errors: self.lex_errors,
                    expected: self.expected,
                    token,
                    prev_token: self.token,
                },
                Err(error) => ParserModel {
                    rest: self.rest.skip(next as int + 1),
                    lex_errors: self.lex_errors.push(error),
                    expected: self.expected,
                    token: TokenModel::eof_after(self.token.span),
                    prev_token: self.token,
                },
            }
        }
    }

    /// The state with one more thing that was looked for in vain.
    pub open spec fn expect(self, what: ExpectedModel) -> ParserModel {
        ParserModel {
            rest: self.rest,
            lex_errors: self.lex_errors,
            expected: self.expected.push(what),
            token: self.token,
            prev_token: self.prev_token,
        }
    }

    /// Looks for a token of kind `kind`: whether the current token is one,
    /// and the state, which records the kind where it is none.
    pub open spec fn check(self, kind: TokenKind) -> (ParserModel, bool) {
        if self.token.kind == kind {
            (self, true)
        } else {
            (self.expect(ExpectedModel::Token(kind)), false)
        }
    }

    /// Looks for the keyword `keyword`: whether the current token is it, and
    /// the state, which records the keyword either way.
    pub open spec fn check_keyword(self, keyword: IdentModel) -> (ParserModel, bool) {
        (self.expect(ExpectedModel::Keyword(keyword)), self.token.is_keyword(keyword))
    }

    /// Takes a token of kind `kind` if the current token is one.
    pub open spec fn consume(self, kind: TokenKind) -> (ParserModel, bool) {
        let (checked, present) = self.check(kind);
        if present {
            (checked.advance(), true)
        } else {
            (checked, false)
        }
    }

    /// Takes the keyword `keyword` if the current token is it.
    pub open spec fn consume_keyword(self, keyword: IdentModel) -> (ParserModel, bool) {
        let (checked, present) = self.check_keyword(keyword);
        if present {
            (checked.advance(), true)
        } else {
            (checked, false)
        }
    }

    /// Takes an identifier: the current token must be one.
    pub open spec fn parse_ident(self) -> (ParserModel, Result<IdentModel, ParseErrorModel>) {
        match self.token.ident() {
            Some(ident) => (self.advance(), Ok(ident)),
            None => (self, Err(error_at("Expected an identifier"@, self.token.span))),
        }
    }

    /// What a result of parsing becomes at the end: the first error of the
    /// tokenizer, if it met one, comes before everything else.
    pub open spec fn ensure_no_errors<T>(self, result: Result<T, ParseErrorModel>) -> Result<
        T,
        ParseErrorModel,
    > {
        if self.lex_errors.len() > 0 {
            Err(lex_failure(self.lex_errors[0]))
        } else {
            result
        }
    }
}

/// Passing over comments ends at an entry that is no comment, or at the end.
pub proof fn lemma_skip_comments(rest: Seq<Result<TokenModel, LexError>>, from: nat)
    requires
        from <= rest.len(),
    ensures
        from <= skip_comments(rest, from) <= rest.len(),
        forall|j: int| from <= j < skip_comments(rest, from) ==> is_comment(#[trigger] rest[j]),
        skip_comments(rest, from) < rest.len() ==> !is_comment(
            rest[skip_comments(rest, from) as int],
        ),
    decreases rest.len() - from,
{
    if from < rest.len() && is_comment(rest[from as int]) {
        lemma_skip_comments(rest, from + 1);
    }
}

/// Reading on never leaves more to read, and leaves less unless the current
/// token is the end of input.
pub proof fn lemma_advance_pending(s: ParserModel)
    ensures
        s.advance().pending() <= s.pending(),
        !s.is_at_end() ==> s.advance().pending() < s.pending(),
{
    lemma_skip_comments(s.rest, 0);
}

/// Looking for a token, and taking one, never leave more to read; taking
/// one that is no end of input leaves less.
pub proof fn lemma_consume_pending(s: ParserModel, kind: TokenKind)
    ensures
        s.check(kind).0.pending() == s.pending(),
        s.consume(kind).0.pending() <= s.pending(),
        s.consume(kind).1 && kind != TokenKind::Eof ==> s.consume(kind).0.pending() < s.pending(),
{
    lemma_advance_pending(s.check(kind).0);
}

/// Looking for a keyword never leaves more to read, and taking one leaves
/// less.
pub proof fn lemma_consume_keyword_pending(s: ParserModel, keyword: IdentModel)
    ensures
        s.check_keyword(keyword).0.pending() == s.pending(),
        s.consume_keyword(keyword).0.pending() <= s.pending(),
        s.consume_keyword(keyword).1 ==> s.consume_keyword(keyword).0.pending() < s.pending(),
{
    lemma_advance_pending(s.check_keyword(keyword).0);
}

/// Taking an identifier leaves less to read where it succeeds, and the
/// state as it was where it fails.
pub proof fn lemma_parse_ident_pending(s: ParserModel)
    ensures
        s.parse_ident().1 is Ok ==> s.parse_ident().0.pending() < s.pending(),
        s.parse_ident().1 is Err ==> s.parse_ident().0 == s,
{
    lemma_advance_pending(s);
}

} // verus!
