//! A recursive-descent parser over the tokens of one source file.

pub mod error;
pub mod expr;
pub mod grammar;
pub mod item;
pub mod progress;
pub mod state;
pub mod stmt;

use crate::ast::{Ident, IdentModel};
use crate::lexer::token::{Token, TokenKind, TokenModel};
use crate::lexer::LexError;
use crate::parser::error::{error_at, lex_failure, ParseError, ParseErrorKind, ParseErrorModel};
use crate::ast::tree::{item_models, Item, ItemModel};
use crate::parser::grammar::{fails, parse, parse_module_items, yields};
use crate::parser::progress::lemma_parse_item_pending;
use crate::parser::state::{is_comment, skip_comments, ExpectedModel, ParserModel};
use crate::thin::{item_list, new_item_list, push_item};
use thin_vec::ThinVec;
use vstd::prelude::*;
use vstd::string::StringExecFns;

verus! {

/// What the parser would have accepted where it stood.
#[derive(Debug, PartialEq, Eq)]
pub enum ExpectedToken {
    Token(TokenKind),
    Keyword(Ident),
    Ident,
}

impl View for ExpectedToken {
    type V = ExpectedModel;

    open spec fn view(&self) -> ExpectedModel {
        match *self {
            ExpectedToken::Token(kind) => ExpectedModel::Token(kind),
            ExpectedToken::Keyword(keyword) => ExpectedModel::Keyword(keyword@),
            ExpectedToken::Ident => ExpectedModel::Ident,
        }
    }
}

/// An entry of an input, a token by its view.
pub open spec fn entry_view(entry: Result<Token, LexError>) -> Result<TokenModel, LexError> {
    match entry {
        Ok(token) => Ok(token@),
        Err(error) => Err(error),
    }
}

/// The entries of an input, each token by its view.
pub open spec fn input_view(input: Seq<Result<Token, LexError>>) -> Seq<
    Result<TokenModel, LexError>,
> {
    Seq::new(input.len(), |i: int| entry_view(input[i]))
}

/// The entries of a stack of input, the top first.
pub open spec fn stack_view(stack: Seq<Result<Token, LexError>>) -> Seq<
    Result<TokenModel, LexError>,
> {
    Seq::new(stack.len(), |i: int| entry_view(stack[stack.len() - 1 - i]))
}

/// What was looked for in vain, each by its view.
pub open spec fn expected_view(expected: Seq<ExpectedToken>) -> Seq<ExpectedModel> {
    Seq::new(expected.len(), |i: int| expected[i]@)
}

/// A parser over the output of the tokenizer.
pub struct Parser {
    /// The entries of the input that have not been read, the next one last.
    tokens: Vec<Result<Token, LexError>>,
    /// The errors of the tokenizer met so far.
    lex_errors: Vec<LexError>,
    /// The tokens that the parser looked for in vain.
    expected_tokens: Vec<ExpectedToken>,
    /// The current token.
    token: Token,
    /// The previous token.
    prev_token: Token,
}

impl View for Parser {
    type V = ParserModel;

    closed spec fn view(&self) -> ParserModel {
        ParserModel {
            rest: stack_view(self.tokens@),
            lex_errors: self.lex_errors@,
            expected: expected_view(self.expected_tokens@),
            token: self.token@,
            prev_token: self.prev_token@,
        }
    }
}

impl Parser {
    /// A parser on `input`, with the first token read.
    pub fn new(input: Vec<Result<Token, LexError>>) -> (parser: Self)
        ensures
            parser@ == ParserModel::start(input_view(input@)),
    {
        let mut input = input;
        let ghost whole = input@;
        let mut tokens: Vec<Result<Token, LexError>> = Vec::new();
        while input.len() > 0
            invariant
                input@.len() + tokens@.len() == whole.len(),
                input@ == whole.take(input@.len() as int),
                forall|i: int|
                    0 <= i < tokens@.len() ==> #[trigger] tokens@[i] == whole[whole.len() - 1 - i],
            decreases input@.len(),
        {
            let entry = input.pop().unwrap();
            tokens.push(entry);
        }
        let mut parser = Parser {
            tokens,
            lex_errors: Vec::new(),
            expected_tokens: Vec::new(),
            token: Token::dummy(),
            prev_token: Token::dummy(),
        };
        proof {
            assert(parser@.rest =~= input_view(whole));
            assert(parser@.expected =~= Seq::empty());
        }
        parser.advance();
        parser
    }

    /// Parses a whole file: its items, and then the end of input. An error
    /// of the tokenizer comes before any other failure; where something other
    /// than the end of input follows the items, the failure says `Expected
    /// end of file`.
    pub fn parse(self) -> (r: Result<ThinVec<Item>, ParseError>)
        ensures
            match r {
                Ok(items) => parse(self@) == Ok::<_, ParseErrorModel>(
                    item_models(item_list(items)),
                ),
                Err(e) => parse(self@) == Err::<Seq<ItemModel>, _>(e@),
            },
    {
        let mut parser = self;
        let items_result = parser.parse_module_items();
        let items = match parser.ensure_no_errors(items_result) {
            Ok(items) => items,
            Err(e) => {
                return Err(e);
            },
        };
        if !parser.is_at_end() {
            return Err(parser.error("Expected end of file"));
        }
        Ok(items)
    }

    /// Parses the items of a file, as long as one starts at the current
    /// token.
    pub fn parse_module_items(&mut self) -> (r: Result<ThinVec<Item>, ParseError>)
        ensures
            match r {
                Ok(items) => yields(
                    parse_module_items(old(self)@, Seq::empty()),
                    final(self)@,
                    item_models(item_list(items)),
                ),
                Err(e) => fails(parse_module_items(old(self)@, Seq::empty()), final(self)@, e@),
            },
    {
        let mut items = new_item_list();
        proof {
            assert(item_models(item_list(items)) =~= Seq::empty());
        }
        loop
            invariant
                parse_module_items(old(self)@, Seq::empty()) == parse_module_items(
                    self@,
                    item_models(item_list(items)),
                ),
            decreases self@.pending(),
        {
            let ghost done = item_models(item_list(items));
            proof {
                lemma_parse_item_pending(self@);
            }
            match self.parse_item() {
                Err(e) => {
                    return Err(e);
                },
                Ok(None) => {
                    return Ok(items);
                },
                Ok(Some(item)) => {
                    proof {
                        assert(item_models(item_list(items).push(item)) =~= done.push(item@));
                    }
                    push_item(&mut items, item);
                },
            }
        }
    }

    /// What a result of parsing becomes at the end: the first error of the
    /// tokenizer, if it met one, comes before everything else.
    pub fn ensure_no_errors<T>(&self, parse_result: Result<T, ParseError>) -> (r: Result<
        T,
        ParseError,
    >)
        ensures
            self@.lex_errors.len() == 0 ==> r == parse_result,
            self@.lex_errors.len() > 0 ==> (r matches Err(e) && e@ == lex_failure(
                self@.lex_errors[0],
            )),
    {
        if self.lex_errors.len() > 0 {
            let first = &self.lex_errors[0];
            return Err(ParseError { kind: ParseErrorKind::LexError(first.kind), span: first.span });
        }
        parse_result
    }

    /// Whether the current token is the end of input.
    pub fn is_at_end(&self) -> (b: bool)
        ensures
            b == self@.is_at_end(),
    {
        self.check_without_expect(TokenKind::Eof)
    }

    /// Reads on to the next token, passing over comments. An error of the
    /// tokenizer is kept, and the current token is then an end of input.
    pub fn advance(&mut self)
        ensures
            final(self)@ == old(self)@.advance(),
    {
        let ghost before = self@;
        let ghost length = self.tokens@.len();
        while self.tokens.len() > 0 && is_comment_entry(&self.tokens[self.tokens.len() - 1])
            invariant
                self.tokens@ == old(self).tokens@.take(self.tokens@.len() as int),
                self.tokens@.len() <= length,
                length == old(self).tokens@.len(),
                self.lex_errors == old(self).lex_errors,
                self.expected_tokens == old(self).expected_tokens,
                self.token == old(self).token,
                self.prev_token == old(self).prev_token,
                before == old(self)@,
                skip_comments(before.rest, 0) == skip_comments(
                    before.rest,
                    (length - self.tokens@.len()) as nat,
                ),
            decreases self.tokens@.len(),
        {
            proof {
                let top = self.tokens@.len() - 1;
                assert(before.rest[length - 1 - top] == entry_view(self.tokens@[top]));
            }
            self.tokens.pop();
        }
        proof {
            if self.tokens@.len() > 0 {
                let top = self.tokens@.len() - 1;
                assert(before.rest[length - 1 - top] == entry_view(self.tokens@[top]));
            }
        }
        let eof = Token::eof_after(self.token.span);
        let next = match self.tokens.pop() {
            Some(Ok(token)) => token,
            Some(Err(error)) => {
                self.lex_errors.push(error);
                eof
            },
            None => eof,
        };
        std::mem::swap(&mut self.prev_token, &mut self.token);
        self.token = next;
        proof {
            assert(self@.rest =~= before.advance().rest);
        }
    }

    /// Whether the current token is of kind `kind`. Where it is not, the
    /// kind is added to what was looked for in vain.
    pub fn check(&mut self, kind: TokenKind) -> (present: bool)
        ensures
            (final(self)@, present) == old(self)@.check(kind),
    {
        let present = self.check_without_expect(kind);
        if !present {
            self.expect(ExpectedToken::Token(kind));
        }
        present
    }

    /// Whether the current token is of kind `kind`; nothing is recorded.
    pub fn check_without_expect(&self, kind: TokenKind) -> (present: bool)
        ensures
            present == (self@.token.kind == kind),
    {
        self.token.kind == kind
    }

    /// Whether the current token is the keyword `keyword`. The keyword is
    /// added to what was looked for either way.
    pub fn check_keyword(&mut self, keyword: Ident) -> (present: bool)
        ensures
            (final(self)@, present) == old(self)@.check_keyword(keyword@),
    {
        let present = self.token.is_keyword(&keyword);
        self.expect(ExpectedToken::Keyword(keyword));
        present
    }

    /// Takes the current token if it is of kind `kind`, and says whether it
    /// was.
    pub fn consume(&mut self, kind: TokenKind) -> (present: bool)
        ensures
            (final(self)@, present) == old(self)@.consume(kind),
    {
        let present = self.check(kind);
        if present {
            self.advance();
        }
        present
    }

    /// Takes the current token if it is the keyword `keyword`, and says
    /// whether it was. The keyword is added to what was looked for either
    /// way.
    pub fn consume_keyword(&mut self, keyword: Ident) -> (present: bool)
        ensures
            (final(self)@, present) == old(self)@.consume_keyword(keyword@),
    {
        if self.check_keyword(keyword) {
            self.advance();
            true
        } else {
            false
        }
    }

    /// Takes an identifier. Where the current token is none, nothing is
    /// taken and the failure says `Expected an identifier`.
    pub fn parse_ident(&mut self) -> (r: Result<Ident, ParseError>)
        ensures
            match r {
                Ok(ident) => old(self)@.parse_ident() == (final(self)@, Ok::<_, ParseErrorModel>(ident@)),
                Err(e) => old(self)@.parse_ident() == (final(self)@, Err::<IdentModel, _>(e@)),
            },
    {
        match self.token.ident() {
            Some(ident) => {
                self.advance();
                Ok(ident)
            },
            None => Err(self.error("Expected an identifier")),
        }
    }

    /// The current token.
    pub fn current(&self) -> (token: &Token)
        ensures
            token@ == self@.token,
    {
        &self.token
    }

    /// The identifier that the current token is, if it is one.
    pub(crate) fn current_ident(&self) -> (ident: Option<Ident>)
        ensures
            match ident {
                Some(ident) => self@.token.ident() == Some(ident@),
                None => self@.token.ident() is None,
            },
    {
        self.token.ident()
    }

    /// The failure with the message `text` at the current token.
    pub(crate) fn error(&self, text: &str) -> (e: ParseError)
        ensures
            e@ == error_at(text@, self@.token.span),
    {
        ParseError { kind: ParseErrorKind::Error(String::from_str(text)), span: self.token.span }
    }

    fn expect(&mut self, what: ExpectedToken)
        ensures
            final(self)@ == old(self)@.expect(what@),
    {
        let ghost before = self.expected_tokens@;
        self.expected_tokens.push(what);
        proof {
            assert(expected_view(self.expected_tokens@) =~= expected_view(before).push(what@));
        }
    }
}

fn is_comment_entry(entry: &Result<Token, LexError>) -> (b: bool)
    ensures
        b == is_comment(entry_view(*entry)),
{
    match entry {
        Ok(token) => token.kind == TokenKind::Comment,
        Err(_) => false,
    }
}

} // verus!
