//! What the parser accepts and what it builds: each parsing function as a
//! function from the state of the parser to the new state and the result.

use crate::ast::keywords::keyword;
use crate::ast::tree::{
    ExprKindModel, ExprModel, FieldDeclModel, FnDeclModel, FnParamModel, ItemKindModel, ItemModel,
    LiteralKind, LiteralModel, StmtKindModel, StmtModel, VariantDataModel, VariantModel,
};
use crate::ast::IdentModel;
use crate::lexer::token::{TokenKind, TokenModel};
use crate::parser::error::{error_at, ParseErrorModel};
use crate::parser::state::{
    lemma_advance_pending, lemma_consume_keyword_pending, lemma_consume_pending,
    lemma_parse_ident_pending, ParserModel,
};
use vstd::prelude::*;

verus! {

/// The new state of the parser, and what was parsed or why nothing was.
pub type Parsed<T> = (ParserModel, Result<T, ParseErrorModel>);

/// Whether `parsed` is the state `state` with the value `value`.
pub open spec fn yields<T>(parsed: Parsed<T>, state: ParserModel, value: T) -> bool {
    parsed == (state, Ok::<T, ParseErrorModel>(value))
}

/// Whether `parsed` is the state `state` with the failure `error`.
pub open spec fn fails<T>(parsed: Parsed<T>, state: ParserModel, error: ParseErrorModel) -> bool {
    parsed == (state, Err::<T, ParseErrorModel>(error))
}

/// The literal of kind `kind` that `token` is.
pub open spec fn literal_expr(kind: LiteralKind, token: TokenModel) -> ExprModel {
    ExprModel {
        kind: ExprKindModel::Literal(LiteralModel { kind, value: token.lexeme }),
        span: token.span,
    }
}

/// The variable called `name`.
pub open spec fn variable_expr(name: IdentModel) -> ExprModel {
    ExprModel { kind: ExprKindModel::Variable { name }, span: name.span }
}

/// The call of the function called `name` with `args`.
pub open spec fn call_expr(name: IdentModel, args: Seq<ExprModel>) -> ExprModel {
    ExprModel {
        kind: ExprKindModel::Call { fun: Box::new(variable_expr(name)), args },
        span: name.span,
    }
}

/// Parses an expression, if one starts at the current token: a string or
/// integer literal, a name, or a name followed by arguments in parentheses.
pub open spec fn parse_expr(s: ParserModel) -> Parsed<Option<ExprModel>>
    decreases s.pending(), 0nat,
{
    if s.token.kind == TokenKind::String {
        (s.advance(), Ok(Some(literal_expr(LiteralKind::String, s.token))))
    } else if s.token.kind == TokenKind::Integer {
        (s.advance(), Ok(Some(literal_expr(LiteralKind::Integer, s.token))))
    } else if s.token.kind == TokenKind::Ident {
        let name = IdentModel { name: s.token.lexeme, span: s.token.span };
        let named = s.advance();
        if named.token.kind == TokenKind::OpenParen {
            let (checked, closed) = named.advance().check(TokenKind::CloseParen);
            let (after, args) = if closed {
                (checked, Ok(Seq::empty()))
            } else {
                proof {
                    lemma_advance_pending(s);
                    lemma_advance_pending(named);
                }
                parse_args(checked, Seq::empty())
            };
            match args {
                Err(e) => (after, Err(e)),
                Ok(args) => (after.consume(TokenKind::CloseParen).0, Ok(Some(call_expr(name, args)))),
            }
        } else {
            (named, Ok(Some(variable_expr(name))))
        }
    } else {
        (s, Ok(None))
    }
}

/// Parses the arguments of a call behind those in `done`: expressions with
/// a comma between each two. An expression must follow each comma.
///
/// Each further argument is parsed only where less is left to read than
/// before, which is always so (see [`lemma_parse_expr_pending`]); the test
/// is what shows that the definition ends.
pub open spec fn parse_args(s: ParserModel, done: Seq<ExprModel>) -> Parsed<Seq<ExprModel>>
    decreases s.pending(), 1nat,
{
    let (after, arg) = parse_expr(s);
    match arg {
        Err(e) => (after, Err(e)),
        Ok(None) => (after, Err(error_at("Expected an expression"@, after.token.span))),
        Ok(Some(arg)) => {
            let (next, more) = after.consume(TokenKind::Comma);
            if more && next.pending() < s.pending() {
                parse_args(next, done.push(arg))
            } else {
                (next, Ok(done.push(arg)))
            }
        },
    }
}

/// Parses the parameters of a function behind those in `done`: each a name,
/// a colon and the name of a type, with a comma between each two.
pub open spec fn parse_params(s: ParserModel, done: Seq<FnParamModel>) -> Parsed<
    Seq<FnParamModel>,
>
    decreases s.pending(),
{
    let (named, name) = s.parse_ident();
    match name {
        Err(e) => (named, Err(e)),
        Ok(name) => {
            let (typed, ty) = named.consume(TokenKind::Colon).0.parse_ident();
            match ty {
                Err(e) => (typed, Err(e)),
                Ok(ty) => {
                    let param = FnParamModel { name, ty, span: name.span };
                    let (next, more) = typed.consume(TokenKind::Comma);
                    if more {
                        proof {
                            lemma_parse_ident_pending(s);
                            lemma_consume_pending(named, TokenKind::Colon);
                            lemma_parse_ident_pending(named.consume(TokenKind::Colon).0);
                            lemma_consume_pending(typed, TokenKind::Comma);
                        }
                        parse_params(next, done.push(param))
                    } else {
                        (next, Ok(done.push(param)))
                    }
                },
            }
        },
    }
}

/// Parses the fields of a struct behind those in `done`, up to the closing
/// brace: each a name, a colon and the name of a type, and a comma if there
/// is one.
pub open spec fn parse_fields(s: ParserModel, done: Seq<FieldDeclModel>) -> Parsed<
    Seq<FieldDeclModel>,
>
    decreases s.pending(),
{
    let (named, name) = s.parse_ident();
    match name {
        Err(e) => (named, Err(e)),
        Ok(name) => {
            let (typed, ty) = named.consume(TokenKind::Colon).0.parse_ident();
            match ty {
                Err(e) => (typed, Err(e)),
                Ok(ty) => {
                    let field = FieldDeclModel { name: Some(name), ty, span: name.span };
                    let (next, closed) = typed.consume(TokenKind::Comma).0.check(
                        TokenKind::CloseBrace,
                    );
                    if closed {
                        (next, Ok(done.push(field)))
                    } else {
                        proof {
                            lemma_parse_ident_pending(s);
                            lemma_consume_pending(named, TokenKind::Colon);
                            lemma_parse_ident_pending(named.consume(TokenKind::Colon).0);
                            lemma_consume_pending(typed, TokenKind::Comma);
                            lemma_consume_pending(
                                typed.consume(TokenKind::Comma).0,
                                TokenKind::CloseBrace,
                            );
                        }
                        parse_fields(next, done.push(field))
                    }
                },
            }
        },
    }
}

/// Parses the variants of a union behind those in `done`, up to the closing
/// brace: each a name, and a comma if there is one.
pub open spec fn parse_variants(s: ParserModel, done: Seq<VariantModel>) -> Parsed<
    Seq<VariantModel>,
>
    decreases s.pending(),
{
    let (named, name) = s.parse_ident();
    match name {
        Err(e) => (named, Err(e)),
        Ok(name) => {
            let variant = VariantModel { name, data: VariantDataModel::Unit, span: name.span };
            let (next, closed) = named.consume(TokenKind::Comma).0.check(TokenKind::CloseBrace);
            if closed {
                (next, Ok(done.push(variant)))
            } else {
                proof {
                    lemma_parse_ident_pending(s);
                    lemma_consume_pending(named, TokenKind::Comma);
                    lemma_consume_pending(named.consume(TokenKind::Comma).0, TokenKind::CloseBrace);
                }
                parse_variants(next, done.push(variant))
            }
        },
    }
}

/// Parses a struct declaration behind its keyword: a name, and fields in
/// braces.
pub open spec fn parse_struct_decl(s: ParserModel) -> Parsed<(IdentModel, VariantDataModel)> {
    let (named, name) = s.parse_ident();
    match name {
        Err(e) => (named, Err(e)),
        Ok(name) => {
            let (checked, closed) = named.consume(TokenKind::OpenBrace).0.check(
                TokenKind::CloseBrace,
            );
            let (after, fields) = if closed {
                (checked, Ok(Seq::empty()))
            } else {
                parse_fields(checked, Seq::empty())
            };
            match fields {
                Err(e) => (after, Err(e)),
                Ok(fields) => (
                    after.consume(TokenKind::CloseBrace).0,
                    Ok((name, VariantDataModel::Struct(fields))),
                ),
            }
        },
    }
}

/// Parses a union declaration behind its keyword: a name, and variants in
/// braces.
pub open spec fn parse_union_decl(s: ParserModel) -> Parsed<(IdentModel, Seq<VariantModel>)> {
    let (named, name) = s.parse_ident();
    match name {
        Err(e) => (named, Err(e)),
        Ok(name) => {
            let (checked, closed) = named.consume(TokenKind::OpenBrace).0.check(
                TokenKind::CloseBrace,
            );
            let (after, variants) = if closed {
                (checked, Ok(Seq::empty()))
            } else {
                parse_variants(checked, Seq::empty())
            };
            match variants {
                Err(e) => (after, Err(e)),
                Ok(variants) => (after.consume(TokenKind::CloseBrace).0, Ok((name, variants))),
            }
        },
    }
}

/// The state in which the return type of a function is looked for, and the
/// name and the parameters parsed up to there.
pub open spec fn parse_fn_head(s: ParserModel) -> Parsed<(IdentModel, Seq<FnParamModel>)> {
    let (named, name) = s.parse_ident();
    match name {
        Err(e) => (named, Err(e)),
        Ok(name) => {
            let (checked, closed) = named.consume(TokenKind::OpenParen).0.check(
                TokenKind::CloseParen,
            );
            let (after, params) = if closed {
                (checked, Ok(Seq::empty()))
            } else {
                parse_params(checked, Seq::empty())
            };
            match params {
                Err(e) => (after, Err(e)),
                Ok(params) => (after.consume(TokenKind::CloseParen).0, Ok((name, params))),
            }
        },
    }
}

/// Parses the return type of a function, if an arrow announces one.
pub open spec fn parse_return_ty(s: ParserModel) -> Parsed<Option<IdentModel>> {
    let (after, arrow) = s.consume(TokenKind::RightArrow);
    if arrow {
        match after.parse_ident() {
            (typed, Ok(ty)) => (typed, Ok(Some(ty))),
            (typed, Err(e)) => (typed, Err(e)),
        }
    } else {
        (after, Ok(None))
    }
}

/// Parsing parameters never leaves more to read.
pub proof fn lemma_parse_params_pending(s: ParserModel, done: Seq<FnParamModel>)
    ensures
        parse_params(s, done).0.pending() <= s.pending(),
    decreases s.pending(),
{
    let (named, name) = s.parse_ident();
    lemma_parse_ident_pending(s);
    if name is Ok {
        let colon = named.consume(TokenKind::Colon).0;
        lemma_consume_pending(named, TokenKind::Colon);
        let (typed, ty) = colon.parse_ident();
        lemma_parse_ident_pending(colon);
        if let Ok(ty) = ty {
            let param = FnParamModel { name: name->Ok_0, ty, span: name->Ok_0.span };
            let (next, more) = typed.consume(TokenKind::Comma);
            lemma_consume_pending(typed, TokenKind::Comma);
            if more {
                lemma_parse_params_pending(next, done.push(param));
            }
        }
    }
}

/// Parsing the head of a function leaves less to read where it succeeds,
/// and never more.
pub proof fn lemma_parse_fn_head_pending(s: ParserModel)
    ensures
        parse_fn_head(s).0.pending() <= s.pending(),
        parse_fn_head(s).1 is Ok ==> parse_fn_head(s).0.pending() < s.pending(),
{
    let (named, name) = s.parse_ident();
    lemma_parse_ident_pending(s);
    if name is Ok {
        let opened = named.consume(TokenKind::OpenParen).0;
        lemma_consume_pending(named, TokenKind::OpenParen);
        let (checked, closed) = opened.check(TokenKind::CloseParen);
        lemma_consume_pending(opened, TokenKind::CloseParen);
        if closed {
            lemma_consume_pending(checked, TokenKind::CloseParen);
        } else {
            lemma_parse_params_pending(checked, Seq::empty());
            lemma_consume_pending(parse_params(checked, Seq::empty()).0, TokenKind::CloseParen);
        }
    }
}

/// Parsing a return type never leaves more to read.
pub proof fn lemma_parse_return_ty_pending(s: ParserModel)
    ensures
        parse_return_ty(s).0.pending() <= s.pending(),
{
    lemma_consume_pending(s, TokenKind::RightArrow);
    lemma_parse_ident_pending(s.consume(TokenKind::RightArrow).0);
}

/// Parses a function behind its keyword: a name, parameters in parentheses,
/// a return type behind an arrow if there is one, and statements in braces.
pub open spec fn parse_fn(s: ParserModel) -> Parsed<(IdentModel, FnDeclModel)>
    decreases s.pending(), 0nat,
{
    let (headed, head) = parse_fn_head(s);
    match head {
        Err(e) => (headed, Err(e)),
        Ok((name, params)) => {
            let (typed, return_ty) = parse_return_ty(headed);
            match return_ty {
                Err(e) => (typed, Err(e)),
                Ok(return_ty) => {
                    let opened = typed.consume(TokenKind::OpenBrace).0;
                    proof {
                        lemma_parse_fn_head_pending(s);
                        lemma_parse_return_ty_pending(headed);
                        lemma_consume_pending(typed, TokenKind::OpenBrace);
                    }
                    let (after, body) = parse_stmts(opened, Seq::empty());
                    match body {
                        Err(e) => (after, Err(e)),
                        Ok(body) => (
                            after.consume(TokenKind::CloseBrace).0,
                            Ok((name, FnDeclModel { params, return_ty, body })),
                        ),
                    }
                },
            }
        },
    }
}

/// Parses the item behind an item keyword, if the current token is one.
pub open spec fn parse_item_kind(s: ParserModel) -> Parsed<Option<(IdentModel, ItemKindModel)>>
    decreases s.pending(), 1nat,
{
    let (after_fn, is_fn) = s.consume_keyword(keyword("fn"@));
    if is_fn {
        proof {
            lemma_consume_keyword_pending(s, keyword("fn"@));
        }
        match parse_fn(after_fn) {
            (after, Err(e)) => (after, Err(e)),
            (after, Ok((name, fun))) => (after, Ok(Some((name, ItemKindModel::Fn(Box::new(fun)))))),
        }
    } else {
        let (after_struct, is_struct) = after_fn.consume_keyword(keyword("struct"@));
        if is_struct {
            match parse_struct_decl(after_struct) {
                (after, Err(e)) => (after, Err(e)),
                (after, Ok((name, data))) => (after, Ok(Some((name, ItemKindModel::Struct(data))))),
            }
        } else {
            let (after_union, is_union) = after_struct.consume_keyword(keyword("union"@));
            if is_union {
                match parse_union_decl(after_union) {
                    (after, Err(e)) => (after, Err(e)),
                    (after, Ok((name, variants))) => (
                        after,
                        Ok(Some((name, ItemKindModel::Union(variants)))),
                    ),
                }
            } else {
                (after_union, Ok(None))
            }
        }
    }
}

/// Parses an item, if one starts at the current token: `pub`, if it stands
/// there, is passed over, and a function, a struct or a union follows.
pub open spec fn parse_item(s: ParserModel) -> Parsed<Option<ItemModel>>
    decreases s.pending(), 2nat,
{
    proof {
        lemma_consume_keyword_pending(s, keyword("pub"@));
    }
    match parse_item_kind(s.consume_keyword(keyword("pub"@)).0) {
        (after, Err(e)) => (after, Err(e)),
        (after, Ok(None)) => (after, Ok(None)),
        (after, Ok(Some((name, kind)))) => (after, Ok(Some(ItemModel { name, kind }))),
    }
}

/// Parses a statement, if one starts at the current token: an item, or an
/// expression and the semicolon behind it if there is one.
pub open spec fn parse_stmt(s: ParserModel) -> Parsed<Option<StmtModel>>
    decreases s.pending(), 3nat,
{
    match parse_item(s) {
        (after, Err(e)) => (after, Err(e)),
        (after, Ok(Some(item))) => (
            after,
            Ok(Some(StmtModel { kind: StmtKindModel::Item(item), span: s.token.span })),
        ),
        (after, Ok(None)) => match parse_expr(after) {
            (after, Err(e)) => (after, Err(e)),
            (after, Ok(None)) => (after, Ok(None)),
            (after, Ok(Some(expr))) => (
                after.consume(TokenKind::Semicolon).0,
                Ok(Some(StmtModel { kind: StmtKindModel::Expr(expr), span: expr.span })),
            ),
        },
    }
}

/// Parses the statements of a body behind those in `done`, as long as one
/// starts at the current token.
///
/// Each further statement is parsed only where less is left to read than
/// before, which is always so (see [`lemma_parse_stmt_pending`]); the test
/// is what shows that the definition ends.
pub open spec fn parse_stmts(s: ParserModel, done: Seq<StmtModel>) -> Parsed<Seq<StmtModel>>
    decreases s.pending(), 4nat,
{
    match parse_stmt(s) {
        (after, Err(e)) => (after, Err(e)),
        (after, Ok(None)) => (after, Ok(done)),
        (after, Ok(Some(stmt))) => if after.pending() < s.pending() {
            parse_stmts(after, done.push(stmt))
        } else {
            (after, Ok(done.push(stmt)))
        },
    }
}

/// Parses the items of a file behind those in `done`, as long as one starts
/// at the current token.
///
/// Each further item is parsed only where less is left to read than before,
/// which is always so (see [`lemma_parse_item_pending`]); the test is what
/// shows that the definition ends.
pub open spec fn parse_module_items(s: ParserModel, done: Seq<ItemModel>) -> Parsed<
    Seq<ItemModel>,
>
    decreases s.pending(),
{
    match parse_item(s) {
        (after, Err(e)) => (after, Err(e)),
        (after, Ok(None)) => (after, Ok(done)),
        (after, Ok(Some(item))) => if after.pending() < s.pending() {
            parse_module_items(after, done.push(item))
        } else {
            (after, Ok(done.push(item)))
        },
    }
}

/// Parses a whole file: its items, and then the end of input. An error of
/// the tokenizer comes before any other failure.
pub open spec fn parse(s: ParserModel) -> Result<Seq<ItemModel>, ParseErrorModel> {
    let (after, items) = parse_module_items(s, Seq::empty());
    match after.ensure_no_errors(items) {
        Err(e) => Err(e),
        Ok(items) => if after.is_at_end() {
            Ok(items)
        } else {
            Err(error_at("Expected end of file"@, after.token.span))
        },
    }
}

} // verus!
