//! Items: functions, structs and unions.

use crate::ast::keywords;
use crate::ast::tree::{
    field_models, lemma_fn_model, lemma_struct_model, lemma_union_model, param_models,
    variant_models, FieldDecl, FnDecl, FnParam, Item, ItemKind, StructDecl, UnionDecl, Variant,
    VariantData,
};
use crate::ast::Ident;
use crate::lexer::token::TokenKind;
use crate::parser::error::ParseError;
use crate::parser::grammar::{
    fails, lemma_parse_fn_head_pending, lemma_parse_return_ty_pending, parse_fields, parse_fn,
    parse_fn_head, parse_item, parse_item_kind, parse_params, parse_struct_decl, parse_union_decl,
    parse_variants, yields,
};

use crate::parser::state::{
    lemma_consume_keyword_pending, lemma_consume_pending, lemma_parse_ident_pending,
};
use crate::parser::Parser;
use crate::thin::{
    field_list, new_field_list, new_param_list, new_variant_list, param_list, push_field,
    push_param, push_variant, variant_list,
};
use thin_vec::ThinVec;
use vstd::prelude::*;

verus! {

impl Parser {
    /// Parses an item, if one starts at the current token: `pub`, if it
    /// stands there, is passed over, and a function, a struct or a union
    /// follows.
    pub fn parse_item(&mut self) -> (r: Result<Option<Item>, ParseError>)
        ensures
            match r {
                Ok(Some(item)) => yields(parse_item(old(self)@), final(self)@, Some(item@)),
                Ok(None) => yields(parse_item(old(self)@), final(self)@, None),
                Err(e) => fails(parse_item(old(self)@), final(self)@, e@),
            },
        decreases old(self)@.pending(), 2nat,
    {
        proof {
            lemma_consume_keyword_pending(self@, keywords::keyword("pub"@));
        }
        self.consume_keyword(keywords::public());
        match self.parse_item_kind() {
            Err(e) => Err(e),
            Ok(None) => Ok(None),
            Ok(Some((name, kind))) => Ok(Some(Item { name, kind })),
        }
    }

    /// Parses the item behind an item keyword, if the current token is one:
    /// the name of the item and what it declares.
    pub fn parse_item_kind(&mut self) -> (r: Result<Option<(Ident, ItemKind)>, ParseError>)
        ensures
            match r {
                Ok(Some((name, kind))) => yields(
                    parse_item_kind(old(self)@),
                    final(self)@,
                    Some((name@, (Item { name, kind })@.kind)),
                ),
                Ok(None) => yields(parse_item_kind(old(self)@), final(self)@, None),
                Err(e) => fails(parse_item_kind(old(self)@), final(self)@, e@),
            },
        decreases old(self)@.pending(), 1nat,
    {
        proof {
            lemma_consume_keyword_pending(self@, keywords::keyword("fn"@));
        }
        if self.consume_keyword(keywords::function()) {
            return match self.parse_fn() {
                Err(e) => Err(e),
                Ok((name, fun)) => Ok(Some((name, ItemKind::Fn(Box::new(fun))))),
            };
        }
        if self.consume_keyword(keywords::structure()) {
            return match self.parse_struct_decl() {
                Err(e) => Err(e),
                Ok((name, decl)) => Ok(Some((name, ItemKind::Struct(decl)))),
            };
        }
        if self.consume_keyword(keywords::union()) {
            return match self.parse_union_decl() {
                Err(e) => Err(e),
                Ok((name, decl)) => {
                    proof {
                        lemma_union_model(name, decl.variants);
                    }
                    Ok(Some((name, ItemKind::Union(decl))))
                },
            };
        }
        Ok(None)
    }

    /// Parses a function behind its keyword: a name, parameters in
    /// parentheses, a return type behind an arrow if there is one, and
    /// statements in braces. A missing parenthesis, arrow or brace is
    /// recorded as looked for and passed over.
    pub fn parse_fn(&mut self) -> (r: Result<(Ident, FnDecl), ParseError>)
        ensures
            match r {
                Ok((name, fun)) => yields(parse_fn(old(self)@), final(self)@, (name@, fun@)),
                Err(e) => fails(parse_fn(old(self)@), final(self)@, e@),
            },
        decreases old(self)@.pending(), 0nat,
    {
        let ghost start = self@;
        let ident = match self.parse_ident() {
            Ok(ident) => ident,
            Err(e) => {
                return Err(e);
            },
        };
        self.consume(TokenKind::OpenParen);
        let params = if self.check(TokenKind::CloseParen) {
            new_param_list()
        } else {
            match self.parse_params() {
                Ok(params) => params,
                Err(e) => {
                    return Err(e);
                },
            }
        };
        self.consume(TokenKind::CloseParen);
        proof {
            assert(param_models(param_list(params)) =~= parse_fn_head(start).1->Ok_0.1);
            lemma_parse_fn_head_pending(start);
            lemma_parse_return_ty_pending(self@);
        }
        let return_ty = if self.consume(TokenKind::RightArrow) {
            match self.parse_ident() {
                Ok(ty) => Some(ty),
                Err(e) => {
                    return Err(e);
                },
            }
        } else {
            None
        };
        proof {
            lemma_consume_pending(self@, TokenKind::OpenBrace);
        }
        self.consume(TokenKind::OpenBrace);
        let body = match self.parse_stmts() {
            Ok(body) => body,
            Err(e) => {
                return Err(e);
            },
        };
        self.consume(TokenKind::CloseBrace);
        let fun = FnDecl { params, return_ty, body };
        proof {
            lemma_fn_model(fun);
        }
        Ok((ident, fun))
    }

    /// Parses the parameters of a function: each a name, a colon and the
    /// name of a type, with a comma between each two.
    fn parse_params(&mut self) -> (r: Result<ThinVec<FnParam>, ParseError>)
        ensures
            match r {
                Ok(params) => yields(
                    parse_params(old(self)@, Seq::empty()),
                    final(self)@,
                    param_models(param_list(params)),
                ),
                Err(e) => fails(parse_params(old(self)@, Seq::empty()), final(self)@, e@),
            },
    {
        let mut params = new_param_list();
        proof {
            assert(param_models(param_list(params)) =~= Seq::empty());
        }
        loop
            invariant
                parse_params(old(self)@, Seq::empty()) == parse_params(
                    self@,
                    param_models(param_list(params)),
                ),
            decreases self@.pending(),
        {
            let ghost done = param_models(param_list(params));
            proof {
                lemma_parse_ident_pending(self@);
            }
            let name = match self.parse_ident() {
                Ok(name) => name,
                Err(e) => {
                    return Err(e);
                },
            };
            proof {
                lemma_consume_pending(self@, TokenKind::Colon);
            }
            self.consume(TokenKind::Colon);
            proof {
                lemma_parse_ident_pending(self@);
            }
            let ty = match self.parse_ident() {
                Ok(ty) => ty,
                Err(e) => {
                    return Err(e);
                },
            };
            let span = name.span;
            let param = FnParam { name, ty, span };
            proof {
                assert(param_models(param_list(params).push(param)) =~= done.push(param@));
                lemma_consume_pending(self@, TokenKind::Comma);
            }
            push_param(&mut params, param);
            if !self.consume(TokenKind::Comma) {
                return Ok(params);
            }
        }
    }

    /// Parses a struct declaration behind its keyword: a name, and fields in
    /// braces, each a name, a colon and the name of a type, and a comma if
    /// there is one.
    pub fn parse_struct_decl(&mut self) -> (r: Result<(Ident, StructDecl), ParseError>)
        ensures
            match r {
                Ok((name, decl)) => yields(
                    parse_struct_decl(old(self)@),
                    final(self)@,
                    (name@, decl.0@),
                ),
                Err(e) => fails(parse_struct_decl(old(self)@), final(self)@, e@),
            },
    {
        let ident = match self.parse_ident() {
            Ok(ident) => ident,
            Err(e) => {
                return Err(e);
            },
        };
        self.consume(TokenKind::OpenBrace);
        let fields = if self.check(TokenKind::CloseBrace) {
            let fields = new_field_list();
            proof {
                assert(field_models(field_list(fields)) =~= Seq::empty());
            }
            fields
        } else {
            match self.parse_fields() {
                Ok(fields) => fields,
                Err(e) => {
                    return Err(e);
                },
            }
        };
        self.consume(TokenKind::CloseBrace);
        proof {
            lemma_struct_model(fields);
        }
        Ok((ident, StructDecl(VariantData::Struct(fields))))
    }

    /// Parses the fields of a struct, up to the closing brace.
    fn parse_fields(&mut self) -> (r: Result<ThinVec<FieldDecl>, ParseError>)
        ensures
            match r {
                Ok(fields) => yields(
                    parse_fields(old(self)@, Seq::empty()),
                    final(self)@,
                    field_models(field_list(fields)),
                ),
                Err(e) => fails(parse_fields(old(self)@, Seq::empty()), final(self)@, e@),
            },
    {
        let mut fields = new_field_list();
        proof {
            assert(field_models(field_list(fields)) =~= Seq::empty());
        }
        loop
            invariant
                parse_fields(old(self)@, Seq::empty()) == parse_fields(
                    self@,
                    field_models(field_list(fields)),
                ),
            decreases self@.pending(),
        {
            let ghost done = field_models(field_list(fields));
            proof {
                lemma_parse_ident_pending(self@);
            }
            let name = match self.parse_ident() {
                Ok(name) => name,
                Err(e) => {
                    return Err(e);
                },
            };
            proof {
                lemma_consume_pending(self@, TokenKind::Colon);
            }
            self.consume(TokenKind::Colon);
            proof {
                lemma_parse_ident_pending(self@);
            }
            let ty = match self.parse_ident() {
                Ok(ty) => ty,
                Err(e) => {
                    return Err(e);
                },
            };
            let span = name.span;
            let field = FieldDecl { name: Some(name), ty, span };
            proof {
                assert(field_models(field_list(fields).push(field)) =~= done.push(field@));
                lemma_consume_pending(self@, TokenKind::Comma);
            }
            push_field(&mut fields, field);
            self.consume(TokenKind::Comma);
            proof {
                lemma_consume_pending(self@, TokenKind::CloseBrace);
            }
            if self.check(TokenKind::CloseBrace) {
                return Ok(fields);
            }
        }
    }

    /// Parses a union declaration behind its keyword: a name, and variants
    /// in braces, each a name, and a comma if there is one.
    pub fn parse_union_decl(&mut self) -> (r: Result<(Ident, UnionDecl), ParseError>)
        ensures
            match r {
                Ok((name, decl)) => yields(
                    parse_union_decl(old(self)@),
                    final(self)@,
                    (name@, variant_models(variant_list(decl.variants))),
                ),
                Err(e) => fails(parse_union_decl(old(self)@), final(self)@, e@),
            },
    {
        let ident = match self.parse_ident() {
            Ok(ident) => ident,
            Err(e) => {
                return Err(e);
            },
        };
        self.consume(TokenKind::OpenBrace);
        let variants = if self.check(TokenKind::CloseBrace) {
            let variants = new_variant_list();
            proof {
                assert(variant_models(variant_list(variants)) =~= Seq::empty());
            }
            variants
        } else {
            match self.parse_variants() {
                Ok(variants) => variants,
                Err(e) => {
                    return Err(e);
                },
            }
        };
        self.consume(TokenKind::CloseBrace);
        Ok((ident, UnionDecl { variants }))
    }

    /// Parses the variants of a union, up to the closing brace.
    fn parse_variants(&mut self) -> (r: Result<ThinVec<Variant>, ParseError>)
        ensures
            match r {
                Ok(variants) => yields(
                    parse_variants(old(self)@, Seq::empty()),
                    final(self)@,
                    variant_models(variant_list(variants)),
                ),
                Err(e) => fails(parse_variants(old(self)@, Seq::empty()), final(self)@, e@),
            },
    {
        let mut variants = new_variant_list();
        proof {
            assert(variant_models(variant_list(variants)) =~= Seq::empty());
        }
        loop
            invariant
                parse_variants(old(self)@, Seq::empty()) == parse_variants(
                    self@,
                    variant_models(variant_list(variants)),
                ),
            decreases self@.pending(),
        {
            let ghost done = variant_models(variant_list(variants));
            proof {
                lemma_parse_ident_pending(self@);
            }
            let name = match self.parse_ident() {
                Ok(name) => name,
                Err(e) => {
                    return Err(e);
                },
            };
            let span = name.span;
            let variant = Variant { name, data: VariantData::Unit, span };
            proof {
                assert(variant_models(variant_list(variants).push(variant)) =~= done.push(
                    variant@,
                ));
                lemma_consume_pending(self@, TokenKind::Comma);
            }
            push_variant(&mut variants, variant);
            self.consume(TokenKind::Comma);
            proof {
                lemma_consume_pending(self@, TokenKind::CloseBrace);
            }
            if self.check(TokenKind::CloseBrace) {
                return Ok(variants);
            }
        }
    }
}

} // verus!
