//! Statements.

use crate::ast::tree::{stmt_models, Stmt, StmtKind};
use crate::lexer::token::TokenKind;
use crate::parser::error::ParseError;
use crate::parser::grammar::{fails, parse_stmt, parse_stmts, yields};
use crate::parser::progress::lemma_parse_stmt_pending;
use crate::parser::Parser;
use vstd::prelude::*;

verus! {

impl Parser {
    /// Parses a statement, if one starts at the current token: an item, or
    /// an expression and the semicolon behind it if there is one.
    pub fn parse_stmt(&mut self) -> (r: Result<Option<Stmt>, ParseError>)
        ensures
            match r {
                Ok(Some(stmt)) => yields(parse_stmt(old(self)@), final(self)@, Some(stmt@)),
                Ok(None) => yields(parse_stmt(old(self)@), final(self)@, None),
                Err(e) => fails(parse_stmt(old(self)@), final(self)@, e@),
            },
        decreases old(self)@.pending(), 3nat,
    {
        let span = self.current().span;
        match self.parse_item() {
            Err(e) => {
                return Err(e);
            },
            Ok(Some(item)) => {
                return Ok(Some(Stmt { kind: StmtKind::Item(item), span }));
            },
            Ok(None) => {},
        }
        match self.parse_expr() {
            Err(e) => Err(e),
            Ok(None) => Ok(None),
            Ok(Some(expr)) => {
                self.consume(TokenKind::Semicolon);
                let span = expr.span;
                Ok(Some(Stmt { kind: StmtKind::Expr(expr), span }))
            },
        }
    }

    /// Parses the statements of a body, as long as one starts at the current
    /// token.
    pub(crate) fn parse_stmts(&mut self) -> (r: Result<Vec<Stmt>, ParseError>)
        ensures
            match r {
                Ok(stmts) => yields(
                    parse_stmts(old(self)@, Seq::empty()),
                    final(self)@,
                    stmt_models(stmts@),
                ),
                Err(e) => fails(parse_stmts(old(self)@, Seq::empty()), final(self)@, e@),
            },
        decreases old(self)@.pending(), 4nat,
    {
        let mut stmts: Vec<Stmt> = Vec::new();
        proof {
            assert(stmt_models(stmts@) =~= Seq::empty());
        }
        loop
            invariant
                parse_stmts(old(self)@, Seq::empty()) == parse_stmts(self@, stmt_models(stmts@)),
                self@.pending() <= old(self)@.pending(),
            decreases self@.pending(),
        {
            let ghost done = stmt_models(stmts@);
            proof {
                lemma_parse_stmt_pending(self@);
            }
            match self.parse_stmt() {
                Err(e) => {
                    return Err(e);
                },
                Ok(None) => {
                    return Ok(stmts);
                },
                Ok(Some(stmt)) => {
                    proof {
                        assert(stmt_models(stmts@.push(stmt)) =~= done.push(stmt@));
                    }
                    stmts.push(stmt);
                },
            }
        }
    }
}

} // verus!
