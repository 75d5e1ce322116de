//! Parsing makes progress: no parsing function leaves more to read than it
//! found, and one that yields something leaves less.

use crate::ast::keywords::keyword;
use crate::ast::tree::{
    ExprModel, FieldDeclModel, ItemModel, StmtModel, VariantDataModel, VariantModel,
};

use crate::lexer::token::TokenKind;
use crate::parser::grammar::{
    lemma_parse_fn_head_pending, lemma_parse_return_ty_pending, parse_args, parse_expr,
    parse_fields, parse_fn, parse_fn_head, parse_item, parse_item_kind,
    parse_return_ty, parse_stmt, parse_stmts, parse_struct_decl, parse_union_decl, parse_variants,
};
use crate::parser::state::{
    lemma_advance_pending, lemma_consume_keyword_pending, lemma_consume_pending,
    lemma_parse_ident_pending, ParserModel,
};
use vstd::prelude::*;

verus! {

/// Parsing an expression never leaves more to read, and leaves less where
/// it yields one.
pub proof fn lemma_parse_expr_pending(s: ParserModel)
    ensures
        parse_expr(s).0.pending() <= s.pending(),
        parse_expr(s).1 matches Ok(Some(_)) ==> parse_expr(s).0.pending() < s.pending(),
    decreases s.pending(), 0nat,
{
    lemma_advance_pending(s);
    if s.token.kind == TokenKind::Ident {
        let named = s.advance();
        if named.token.kind == TokenKind::OpenParen {
            lemma_advance_pending(named);
            let (checked, closed) = named.advance().check(TokenKind::CloseParen);
            lemma_consume_pending(named.advance(), TokenKind::CloseParen);
            if closed {
                lemma_consume_pending(checked, TokenKind::CloseParen);
            } else {
                lemma_parse_args_pending(checked, Seq::empty());
                lemma_consume_pending(parse_args(checked, Seq::empty()).0, TokenKind::CloseParen);
            }
        }
    }
}

/// Parsing arguments never leaves more to read.
pub proof fn lemma_parse_args_pending(s: ParserModel, done: Seq<ExprModel>)
    ensures
        parse_args(s, done).0.pending() <= s.pending(),
    decreases s.pending(), 1nat,
{
    lemma_parse_expr_pending(s);
    let (after, arg) = parse_expr(s);
    if let Ok(Some(arg)) = arg {
        let (next, more) = after.consume(TokenKind::Comma);
        lemma_consume_pending(after, TokenKind::Comma);
        if more {
            lemma_parse_args_pending(next, done.push(arg));
        }
    }
}

/// Behind an argument and its comma less is left to read than before the
/// argument: the next argument is always parsed.
pub proof fn lemma_parse_args_step(s: ParserModel)
    ensures
        parse_expr(s).1 matches Ok(Some(_)) ==> parse_expr(s).0.consume(
            TokenKind::Comma,
        ).0.pending() < s.pending(),
{
    lemma_parse_expr_pending(s);
    lemma_consume_pending(parse_expr(s).0, TokenKind::Comma);
}

/// Parsing fields never leaves more to read.
pub proof fn lemma_parse_fields_pending(s: ParserModel, done: Seq<FieldDeclModel>)
    ensures
        parse_fields(s, done).0.pending() <= s.pending(),
    decreases s.pending(),
{
    let (named, name) = s.parse_ident();
    lemma_parse_ident_pending(s);
    if name is Ok {
        let colon = named.consume(TokenKind::Colon).0;
        lemma_consume_pending(named, TokenKind::Colon);
        let (typed, ty) = colon.parse_ident();
        lemma_parse_ident_pending(colon);
        if let Ok(ty) = ty {
            let field = FieldDeclModel { name: Some(name->Ok_0), ty, span: name->Ok_0.span };
            let comma = typed.consume(TokenKind::Comma).0;
            lemma_consume_pending(typed, TokenKind::Comma);
            let (next, closed) = comma.check(TokenKind::CloseBrace);
            lemma_consume_pending(comma, TokenKind::CloseBrace);
            if !closed {
                lemma_parse_fields_pending(next, done.push(field));
            }
        }
    }
}

/// Parsing variants never leaves more to read.
pub proof fn lemma_parse_variants_pending(s: ParserModel, done: Seq<VariantModel>)
    ensures
        parse_variants(s, done).0.pending() <= s.pending(),
    decreases s.pending(),
{
    let (named, name) = s.parse_ident();
    lemma_parse_ident_pending(s);
    if let Ok(name) = name {
        let variant = VariantModel { name, data: VariantDataModel::Unit, span: name.span };
        let comma = named.consume(TokenKind::Comma).0;
        lemma_consume_pending(named, TokenKind::Comma);
        let (next, closed) = comma.check(TokenKind::CloseBrace);
        lemma_consume_pending(comma, TokenKind::CloseBrace);
        if !closed {
            lemma_parse_variants_pending(next, done.push(variant));
        }
    }
}

/// Parsing a struct declaration never leaves more to read.
pub proof fn lemma_parse_struct_decl_pending(s: ParserModel)
    ensures
        parse_struct_decl(s).0.pending() <= s.pending(),
{
    let (named, name) = s.parse_ident();
    lemma_parse_ident_pending(s);
    if name is Ok {
        let opened = named.consume(TokenKind::OpenBrace).0;
        lemma_consume_pending(named, TokenKind::OpenBrace);
        let (checked, closed) = opened.check(TokenKind::CloseBrace);
        lemma_consume_pending(opened, TokenKind::CloseBrace);
        if closed {
            lemma_consume_pending(checked, TokenKind::CloseBrace);
        } else {
            lemma_parse_fields_pending(checked, Seq::empty());
            lemma_consume_pending(parse_fields(checked, Seq::empty()).0, TokenKind::CloseBrace);
        }
    }
}

/// Parsing a union declaration never leaves more to read.
pub proof fn lemma_parse_union_decl_pending(s: ParserModel)
    ensures
        parse_union_decl(s).0.pending() <= s.pending(),
{
    let (named, name) = s.parse_ident();
    lemma_parse_ident_pending(s);
    if name is Ok {
        let opened = named.consume(TokenKind::OpenBrace).0;
        lemma_consume_pending(named, TokenKind::OpenBrace);
        let (checked, closed) = opened.check(TokenKind::CloseBrace);
        lemma_consume_pending(opened, TokenKind::CloseBrace);
        if closed {
            lemma_consume_pending(checked, TokenKind::CloseBrace);
        } else {
            lemma_parse_variants_pending(checked, Seq::empty());
            lemma_consume_pending(parse_variants(checked, Seq::empty()).0, TokenKind::CloseBrace);
        }
    }
}

/// Parsing a function never leaves more to read.
pub proof fn lemma_parse_fn_pending(s: ParserModel)
    ensures
        parse_fn(s).0.pending() <= s.pending(),
    decreases s.pending(), 0nat,
{
    let (headed, head) = parse_fn_head(s);
    lemma_parse_fn_head_pending(s);
    if head is Ok {
        let (typed, return_ty) = parse_return_ty(headed);
        lemma_parse_return_ty_pending(headed);
        if return_ty is Ok {
            let opened = typed.consume(TokenKind::OpenBrace).0;
            lemma_consume_pending(typed, TokenKind::OpenBrace);
            lemma_parse_stmts_pending(opened, Seq::empty());
            lemma_consume_pending(parse_stmts(opened, Seq::empty()).0, TokenKind::CloseBrace);
        }
    }
}

/// Parsing what follows an item keyword never leaves more to read, and
/// leaves less where it yields an item.
pub proof fn lemma_parse_item_kind_pending(s: ParserModel)
    ensures
        parse_item_kind(s).0.pending() <= s.pending(),
        parse_item_kind(s).1 matches Ok(Some(_)) ==> parse_item_kind(s).0.pending() < s.pending(),
    decreases s.pending(), 1nat,
{
    let (after_fn, is_fn) = s.consume_keyword(keyword("fn"@));
    lemma_consume_keyword_pending(s, keyword("fn"@));
    if is_fn {
        lemma_parse_fn_pending(after_fn);
    } else {
        let (after_struct, is_struct) = after_fn.consume_keyword(keyword("struct"@));
        lemma_consume_keyword_pending(after_fn, keyword("struct"@));
        if is_struct {
            lemma_parse_struct_decl_pending(after_struct);
        } else {
            let (after_union, is_union) = after_struct.consume_keyword(keyword("union"@));
            lemma_consume_keyword_pending(after_struct, keyword("union"@));
            if is_union {
                lemma_parse_union_decl_pending(after_union);
            }
        }
    }
}

/// Parsing an item never leaves more to read, and leaves less where it
/// yields one.
pub proof fn lemma_parse_item_pending(s: ParserModel)
    ensures
        parse_item(s).0.pending() <= s.pending(),
        parse_item(s).1 matches Ok(Some(_)) ==> parse_item(s).0.pending() < s.pending(),
    decreases s.pending(), 2nat,
{
    lemma_consume_keyword_pending(s, keyword("pub"@));
    lemma_parse_item_kind_pending(s.consume_keyword(keyword("pub"@)).0);
}

/// Parsing a statement never leaves more to read, and leaves less where it
/// yields one.
pub proof fn lemma_parse_stmt_pending(s: ParserModel)
    ensures
        parse_stmt(s).0.pending() <= s.pending(),
        parse_stmt(s).1 matches Ok(Some(_)) ==> parse_stmt(s).0.pending() < s.pending(),
    decreases s.pending(), 3nat,
{
    lemma_parse_item_pending(s);
    let (after, item) = parse_item(s);
    if item matches Ok(None) {
        lemma_parse_expr_pending(after);
        lemma_consume_pending(parse_expr(after).0, TokenKind::Semicolon);
    }
}

/// Parsing statements never leaves more to read.
pub proof fn lemma_parse_stmts_pending(s: ParserModel, done: Seq<StmtModel>)
    ensures
        parse_stmts(s, done).0.pending() <= s.pending(),
    decreases s.pending(), 4nat,
{
    lemma_parse_stmt_pending(s);
    if let (after, Ok(Some(stmt))) = parse_stmt(s) {
        lemma_parse_stmts_pending(after, done.push(stmt));
    }
}

} // verus!
