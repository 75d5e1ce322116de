//! Expressions.

use crate::ast::tree::{expr_models, lemma_call_model, Expr, ExprKind, Literal, LiteralKind};
use crate::lexer::token::TokenKind;
use crate::parser::error::ParseError;
use crate::parser::grammar::{fails, literal_expr, parse_args, parse_expr, yields};
use crate::parser::progress::{lemma_parse_args_step, lemma_parse_expr_pending};
use crate::parser::state::lemma_advance_pending;
use crate::parser::Parser;
use vstd::prelude::*;

verus! {

impl Parser {
    /// Parses an expression, if one starts at the current token: a string or
    /// integer literal, a name, or a name followed by arguments in
    /// parentheses. Where none starts, nothing is read.
    pub fn parse_expr(&mut self) -> (r: Result<Option<Expr>, ParseError>)
        ensures
            match r {
                Ok(Some(expr)) => yields(parse_expr(old(self)@), final(self)@, Some(expr@)),
                Ok(None) => yields(parse_expr(old(self)@), final(self)@, None),
                Err(e) => fails(parse_expr(old(self)@), final(self)@, e@),
            },
        decreases old(self)@.pending(), 0nat,
    {
        let ghost start = self@;
        if self.check_without_expect(TokenKind::String) {
            let expr = self.literal(LiteralKind::String);
            self.advance();
            return Ok(Some(expr));
        }
        if self.check_without_expect(TokenKind::Integer) {
            let expr = self.literal(LiteralKind::Integer);
            self.advance();
            return Ok(Some(expr));
        }
        let name = match self.current_ident() {
            Some(name) => name,
            None => {
                return Ok(None);
            },
        };
        let span = name.span;
        let callee = Expr { kind: ExprKind::Variable { name }, span };
        self.advance();
        if !self.check_without_expect(TokenKind::OpenParen) {
            return Ok(Some(callee));
        }
        proof {
            lemma_advance_pending(start);
            lemma_advance_pending(self@);
        }
        self.advance();
        let args = if self.check(TokenKind::CloseParen) {
            let args: Vec<Expr> = Vec::new();
            proof {
                assert(expr_models(args@) =~= Seq::empty());
            }
            args
        } else {
            match self.parse_args() {
                Ok(args) => args,
                Err(e) => {
                    return Err(e);
                },
            }
        };
        self.consume(TokenKind::CloseParen);
        proof {
            lemma_call_model(callee, args, span);
        }
        Ok(Some(Expr { kind: ExprKind::Call { fun: Box::new(callee), args }, span }))
    }

    /// Parses the arguments of a call: expressions with a comma between each
    /// two. An expression must follow each comma.
    fn parse_args(&mut self) -> (r: Result<Vec<Expr>, ParseError>)
        ensures
            match r {
                Ok(args) => yields(
                    parse_args(old(self)@, Seq::empty()),
                    final(self)@,
                    expr_models(args@),
                ),
                Err(e) => fails(parse_args(old(self)@, Seq::empty()), final(self)@, e@),
            },
        decreases old(self)@.pending(), 1nat,
    {
        let mut args: Vec<Expr> = Vec::new();
        proof {
            assert(expr_models(args@) =~= Seq::empty());
        }
        loop
            invariant
                parse_args(old(self)@, Seq::empty()) == parse_args(self@, expr_models(args@)),
                self@.pending() <= old(self)@.pending(),
            decreases self@.pending(),
        {
            let ghost before = self@;
            let ghost done = expr_models(args@);
            proof {
                lemma_parse_args_step(before);
                lemma_parse_expr_pending(before);
            }
            match self.parse_expr() {
                Err(e) => {
                    return Err(e);
                },
                Ok(None) => {
                    return Err(self.error("Expected an expression"));
                },
                Ok(Some(arg)) => {
                    proof {
                        assert(expr_models(args@.push(arg)) =~= done.push(arg@));
                    }
                    args.push(arg);
                },
            }
            if !self.consume(TokenKind::Comma) {
                return Ok(args);
            }
        }
    }

    /// The current token as a literal of kind `kind`.
    fn literal(&self, kind: LiteralKind) -> (expr: Expr)
        ensures
            expr@ == literal_expr(kind, self@.token),
    {
        Expr {
            kind: ExprKind::Literal(Literal { kind, value: self.current().lexeme.clone() }),
            span: self.current().span,
        }
    }
}

} // verus!
