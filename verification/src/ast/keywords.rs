//! The words that the parser reads as keywords. A keyword is an identifier
//! of a fixed name; where it stands does not matter.

use crate::ast::{Ident, IdentModel, Span};
use vstd::prelude::*;
use vstd::string::StringExecFns;

verus! {

/// The keyword of this name.
pub open spec fn keyword(name: Seq<char>) -> IdentModel {
    IdentModel { name, span: Span::dummy() }
}

fn make(name: &str) -> (ident: Ident)
    ensures
        ident@ == keyword(name@),
{
    Ident { name: String::from_str(name), span: Span::dummy() }
}

/// `pub`, which may stand before an item.
pub fn public() -> (ident: Ident)
    ensures
        ident@ == keyword("pub"@),
{
    make("pub")
}

/// `fn`, which starts a function.
pub fn function() -> (ident: Ident)
    ensures
        ident@ == keyword("fn"@),
{
    make("fn")
}

/// `struct`, which starts a struct declaration.
pub fn structure() -> (ident: Ident)
    ensures
        ident@ == keyword("struct"@),
{
    make("struct")
}

/// `union`, which starts a union declaration.
pub fn union() -> (ident: Ident)
    ensures
        ident@ == keyword("union"@),
{
    make("union")
}

} // verus!
