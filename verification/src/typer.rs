//! Resolved types, as type resolution attaches them to the typed tree.

use vstd::prelude::*;

verus! {

/// A resolved type.
#[derive(Debug, PartialEq, Eq)]
pub enum Type {
    /// A function type.
    Fn { args: Vec<Type>, return_ty: Box<Type> },
    /// A nominal type, named by the module that declares it and its name there.
    UserDefined { module: String, name: String },
}

} // verus!
