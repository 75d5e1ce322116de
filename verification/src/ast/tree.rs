//! The declaration tree that the parser builds, before types are resolved.

use crate::ast::{Ident, IdentModel, Span};
use crate::thin::{field_list, param_list, variant_list};
use thin_vec::ThinVec;
use vstd::prelude::*;

verus! {

/// The kind of a literal.
#[derive(Clone, Copy, Debug, PartialEq, Eq, Structural)]
pub enum LiteralKind {
    String,
    Integer,
}

/// A literal, with its text as it stands in the source.
#[derive(Debug, PartialEq, Eq)]
pub struct Literal {
    pub kind: LiteralKind,
    pub value: String,
}

pub struct LiteralModel {
    pub kind: LiteralKind,
    pub value: Seq<char>,
}

impl View for Literal {
    type V = LiteralModel;

    open spec fn view(&self) -> LiteralModel {
        LiteralModel { kind: self.kind, value: self.value@ }
    }
}

/// An expression.
#[derive(Debug, PartialEq, Eq)]
pub struct Expr {
    pub kind: ExprKind,
    pub span: Span,
}

#[derive(Debug, PartialEq, Eq)]
pub enum ExprKind {
    Literal(Literal),
    Variable { name: Ident },
    Call { fun: Box<Expr>, args: Vec<Expr> },
}

pub struct ExprModel {
    pub kind: ExprKindModel,
    pub span: Span,
}

pub enum ExprKindModel {
    Literal(LiteralModel),
    Variable { name: IdentModel },
    Call { fun: Box<ExprModel>, args: Seq<ExprModel> },
}

/// The model of an expression.
pub open spec fn expr_model(expr: Expr) -> ExprModel
    decreases expr,
{
    ExprModel {
        kind: match expr.kind {
            ExprKind::Literal(literal) => ExprKindModel::Literal(literal@),
            ExprKind::Variable { name } => ExprKindModel::Variable { name: name@ },
            ExprKind::Call { fun, args } => ExprKindModel::Call {
                fun: Box::new(expr_model(*fun)),
                args: Seq::new(
                    args@.len(),
                    |i: int|
                        if 0 <= i < args@.len() {
                            expr_model(args@[i])
                        } else {
                            arbitrary()
                        },
                ),
            },
        },
        span: expr.span,
    }
}

impl View for Expr {
    type V = ExprModel;

    open spec fn view(&self) -> ExprModel {
        expr_model(*self)
    }
}

/// A parameter of a function: its name and the name of its type.
#[derive(Debug, PartialEq, Eq)]
pub struct FnParam {
    pub name: Ident,
    pub ty: Ident,
    pub span: Span,
}

pub struct FnParamModel {
    pub name: IdentModel,
    pub ty: IdentModel,
    pub span: Span,
}

impl View for FnParam {
    type V = FnParamModel;

    open spec fn view(&self) -> FnParamModel {
        FnParamModel { name: self.name@, ty: self.ty@, span: self.span }
    }
}

/// A field of a struct: its name, if it has one, and the name of its type.
#[derive(Debug, PartialEq, Eq)]
pub struct FieldDecl {
    pub name: Option<Ident>,
    pub ty: Ident,
    pub span: Span,
}

pub struct FieldDeclModel {
    pub name: Option<IdentModel>,
    pub ty: IdentModel,
    pub span: Span,
}

impl View for FieldDecl {
    type V = FieldDeclModel;

    open spec fn view(&self) -> FieldDeclModel {
        FieldDeclModel {
            name: match self.name {
                Some(name) => Some(name@),
                None => None,
            },
            ty: self.ty@,
            span: self.span,
        }
    }
}

/// What a struct or a variant of a union holds.
#[derive(Debug, PartialEq, Eq)]
pub enum VariantData {
    Struct(ThinVec<FieldDecl>),
    Unit,
}

pub enum VariantDataModel {
    Struct(Seq<FieldDeclModel>),
    Unit,
}

impl View for VariantData {
    type V = VariantDataModel;

    open spec fn view(&self) -> VariantDataModel {
        match *self {
            VariantData::Struct(fields) => VariantDataModel::Struct(
                Seq::new(field_list(fields).len(), |i: int| field_list(fields)[i]@),
            ),
            VariantData::Unit => VariantDataModel::Unit,
        }
    }
}

/// A struct declaration.
#[derive(Debug, PartialEq, Eq)]
pub struct StructDecl(pub VariantData);

/// A variant of a union.
#[derive(Debug, PartialEq, Eq)]
pub struct Variant {
    pub name: Ident,
    pub data: VariantData,
    pub span: Span,
}

pub struct VariantModel {
    pub name: IdentModel,
    pub data: VariantDataModel,
    pub span: Span,
}

impl View for Variant {
    type V = VariantModel;

    open spec fn view(&self) -> VariantModel {
        VariantModel { name: self.name@, data: self.data@, span: self.span }
    }
}

/// A union declaration.
#[derive(Debug, PartialEq, Eq)]
pub struct UnionDecl {
    pub variants: ThinVec<Variant>,
}

/// A function: its parameters, the name of its return type if it has one,
/// and its statements.
#[derive(Debug, PartialEq, Eq)]
pub struct FnDecl {
    pub params: ThinVec<FnParam>,
    pub return_ty: Option<Ident>,
    pub body: Vec<Stmt>,
}

/// A statement.
#[derive(Debug, PartialEq, Eq)]
pub struct Stmt {
    pub kind: StmtKind,
    pub span: Span,
}

#[derive(Debug, PartialEq, Eq)]
pub enum StmtKind {
    Expr(Expr),
    Item(Item),
}

/// A declaration with its name.
#[derive(Debug, PartialEq, Eq)]
pub struct Item {
    pub name: Ident,
    pub kind: ItemKind,
}

#[derive(Debug, PartialEq, Eq)]
pub enum ItemKind {
    Fn(Box<FnDecl>),
    Struct(StructDecl),
    Union(UnionDecl),
}

pub struct FnDeclModel {
    pub params: Seq<FnParamModel>,
    pub return_ty: Option<IdentModel>,
    pub body: Seq<StmtModel>,
}

pub struct StmtModel {
    pub kind: StmtKindModel,
    pub span: Span,
}

pub enum StmtKindModel {
    Expr(ExprModel),
    Item(ItemModel),
}

pub struct ItemModel {
    pub name: IdentModel,
    pub kind: ItemKindModel,
}

pub enum ItemKindModel {
    Fn(Box<FnDeclModel>),
    Struct(VariantDataModel),
    Union(Seq<VariantModel>),
}

/// The model of a statement.
pub open spec fn stmt_model(stmt: Stmt) -> StmtModel
    decreases stmt,
{
    StmtModel {
        kind: match stmt.kind {
            StmtKind::Expr(expr) => StmtKindModel::Expr(expr@),
            StmtKind::Item(item) => StmtKindModel::Item(item_model(item)),
        },
        span: stmt.span,
    }
}

/// The model of a function.
pub open spec fn fn_model(fun: FnDecl) -> FnDeclModel
    decreases fun,
{
    FnDeclModel {
        params: Seq::new(param_list(fun.params).len(), |i: int| param_list(fun.params)[i]@),
        return_ty: match fun.return_ty {
            Some(name) => Some(name@),
            None => None,
        },
        body: Seq::new(
            fun.body@.len(),
            |i: int|
                if 0 <= i < fun.body@.len() {
                    stmt_model(fun.body@[i])
                } else {
                    arbitrary()
                },
        ),
    }
}

/// The model of an item.
pub open spec fn item_model(item: Item) -> ItemModel
    decreases item,
{
    ItemModel {
        name: item.name@,
        kind: match item.kind {
            ItemKind::Fn(fun) => ItemKindModel::Fn(Box::new(fn_model(*fun))),
            ItemKind::Struct(decl) => ItemKindModel::Struct(decl.0@),
            ItemKind::Union(decl) => ItemKindModel::Union(
                Seq::new(
                    variant_list(decl.variants).len(),
                    |i: int| variant_list(decl.variants)[i]@,
                ),
            ),
        },
    }
}

impl View for Stmt {
    type V = StmtModel;

    open spec fn view(&self) -> StmtModel {
        stmt_model(*self)
    }
}

impl View for FnDecl {
    type V = FnDeclModel;

    open spec fn view(&self) -> FnDeclModel {
        fn_model(*self)
    }
}

impl View for Item {
    type V = ItemModel;

    open spec fn view(&self) -> ItemModel {
        item_model(*self)
    }
}

/// The models of expressions, in their order.
pub open spec fn expr_models(exprs: Seq<Expr>) -> Seq<ExprModel> {
    Seq::new(exprs.len(), |i: int| exprs[i]@)
}

/// The models of statements, in their order.
pub open spec fn stmt_models(stmts: Seq<Stmt>) -> Seq<StmtModel> {
    Seq::new(stmts.len(), |i: int| stmts[i]@)
}

/// The models of parameters, in their order.
pub open spec fn param_models(params: Seq<FnParam>) -> Seq<FnParamModel> {
    Seq::new(params.len(), |i: int| params[i]@)
}

/// The models of fields, in their order.
pub open spec fn field_models(fields: Seq<FieldDecl>) -> Seq<FieldDeclModel> {
    Seq::new(fields.len(), |i: int| fields[i]@)
}

/// The models of variants, in their order.
pub open spec fn variant_models(variants: Seq<Variant>) -> Seq<VariantModel> {
    Seq::new(variants.len(), |i: int| variants[i]@)
}

/// The models of items, in their order.
pub open spec fn item_models(items: Seq<Item>) -> Seq<ItemModel> {
    Seq::new(items.len(), |i: int| items[i]@)
}

/// The model of a call is made of the models of its parts.
pub proof fn lemma_call_model(fun: Expr, args: Vec<Expr>, span: Span)
    ensures
        (Expr { kind: ExprKind::Call { fun: Box::new(fun), args }, span })@ == (ExprModel {
            kind: ExprKindModel::Call { fun: Box::new(fun@), args: expr_models(args@) },
            span,
        }),
{
    let call = Expr { kind: ExprKind::Call { fun: Box::new(fun), args }, span };
    assert(call@.kind->Call_args =~= expr_models(args@));
}

/// The model of a function is made of the models of its parts.
pub proof fn lemma_fn_model(fun: FnDecl)
    ensures
        fun@ == (FnDeclModel {
            params: param_models(param_list(fun.params)),
            return_ty: match fun.return_ty {
                Some(name) => Some(name@),
                None => None,
            },
            body: stmt_models(fun.body@),
        }),
{
    assert(fun@.params =~= param_models(param_list(fun.params)));
    assert(fun@.body =~= stmt_models(fun.body@));
}

/// The model of what a struct holds is made of the models of its fields.
pub proof fn lemma_struct_model(fields: ThinVec<FieldDecl>)
    ensures
        VariantData::Struct(fields)@ == VariantDataModel::Struct(field_models(field_list(fields))),
{
    assert(VariantData::Struct(fields)@->Struct_0 =~= field_models(field_list(fields)));
}

/// The model of a union is made of the models of its variants.
pub proof fn lemma_union_model(name: Ident, variants: ThinVec<Variant>)
    ensures
        (Item { name, kind: ItemKind::Union(UnionDecl { variants }) })@ == (ItemModel {
            name: name@,
            kind: ItemKindModel::Union(variant_models(variant_list(variants))),
        }),
{
    let item = Item { name, kind: ItemKind::Union(UnionDecl { variants }) };
    assert(item@.kind->Union_0 =~= variant_models(variant_list(variants)));
}

} // verus!
