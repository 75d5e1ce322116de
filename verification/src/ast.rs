//! Source positions, identifiers, and the typed declaration tree.

pub mod keywords;
pub mod tree;

use crate::typer::Type;
use smol_str::SmolStr;
use thin_vec::ThinVec;
use vstd::prelude::*;

verus! {

/// A half-open range of source positions.
#[derive(Clone, Copy, Debug, PartialEq, Eq, Structural)]
pub struct Span {
    pub start: usize,
    pub end: usize,
}

impl Span {
    /// The span of what stands nowhere in the source.
    pub open spec fn spec_dummy() -> Span {
        Span { start: 0, end: 0 }
    }

    /// The span of what stands nowhere in the source.
    #[verifier::when_used_as_spec(spec_dummy)]
    pub fn dummy() -> (span: Span)
        ensures
            span == Span::spec_dummy(),
    {
        Span { start: 0, end: 0 }
    }

    /// The span one position wide that directly follows this one; it is
    /// empty where no position follows.
    pub open spec fn following(self) -> Span {
        Span {
            start: self.end,
            end: if self.end < usize::MAX {
                (self.end + 1) as usize
            } else {
                self.end
            },
        }
    }

    /// The span one position wide that directly follows this one.
    pub fn after(&self) -> (next: Span)
        ensures
            next == self.following(),
    {
        let end: usize = if self.end < usize::MAX {
            self.end + 1
        } else {
            self.end
        };
        Span { start: self.end, end }
    }
}

/// A name with the place where it was written.
#[derive(Debug, PartialEq, Eq)]
pub struct Ident {
    pub name: String,
    pub span: Span,
}

/// An [`Ident`] with its name as a sequence of characters.
pub struct IdentModel {
    pub name: Seq<char>,
    pub span: Span,
}

impl View for Ident {
    type V = IdentModel;

    open spec fn view(&self) -> IdentModel {
        IdentModel { name: self.name@, span: self.span }
    }
}

impl Clone for Ident {
    fn clone(&self) -> (copy: Self)
        ensures
            copy == *self,
    {
        Ident { name: self.name.clone(), span: self.span }
    }
}


/// A parameter of a typed function.
#[derive(Debug, PartialEq, Eq)]
pub struct TyFnParam {
    pub name: Ident,
    pub ty: Type,
    pub span: Span,
}

/// A typed function: its parameters in declared order and its statements.
#[derive(Debug, PartialEq, Eq)]
pub struct TyFn {
    pub params: ThinVec<TyFnParam>,
    pub body: Vec<TyStmt>,
}

#[derive(Debug, PartialEq, Eq)]
pub struct TyStmt {
    pub kind: TyStmtKind,
    pub span: Span,
}

#[derive(Debug, PartialEq, Eq)]
pub enum TyStmtKind {
    Expr(TyExpr),
    Item(TyItem),
}

#[derive(Debug, PartialEq, Eq)]
pub struct TyItem {
    pub name: Ident,
    pub kind: TyItemKind,
}

#[derive(Debug, PartialEq, Eq)]
pub enum TyItemKind {
    Fn(Box<TyFn>),
    Struct,
    Union,
}

#[derive(Debug, PartialEq, Eq)]
pub struct TyExpr {
    pub kind: TyExprKind,
    pub span: Span,
}

#[derive(Debug, PartialEq, Eq)]
pub enum TyExprKind {
    Literal(TyLiteral),
    Variable { name: Ident },
    Call { fun: Box<TyExpr>, args: Vec<TyExpr> },
}

#[derive(Debug, PartialEq, Eq)]
pub struct TyLiteral {
    pub kind: TyLiteralKind,
    pub span: Span,
}

#[derive(Debug, PartialEq, Eq)]
pub enum TyLiteralKind {
    /// The lexeme of a string literal, quotes included.
    String(SmolStr),
    Integer(TyIntegerLiteral),
}

#[derive(Clone, Copy, Debug, PartialEq, Eq)]
pub enum TyIntegerLiteral {
    Unsigned(u128, TyUint),
}

#[derive(Clone, Copy, Debug, PartialEq, Eq)]
pub enum TyUint {
    Uint64,
}

} // verus!
