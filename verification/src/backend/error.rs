//! Why lowering a program can fail.

use vstd::prelude::*;
use vstd::string::StringExecFns;

verus! {

/// A failure of lowering. Every failure stops the whole compilation.
#[derive(Debug, PartialEq, Eq)]
pub enum CompileError {
    /// A parameter has a nominal type that no machine type stands for.
    UnknownType { module: String, name: String },
    /// A parameter has a function type.
    UnsupportedParamType,
    /// A statement is a nested item.
    UnsupportedStatement,
    /// The callee of a call is not a bare name.
    UnsupportedCallee,
    /// A variable names no parameter of the enclosing function.
    ParamNotFound { name: String },
    /// A call names no function of the module.
    FunctionNotFound { name: String },
    /// A call to a function that returns nothing stands where a value is needed.
    VoidArgument { callee: String },
}

/// A [`CompileError`] with its names as sequences of characters.
pub enum CompileErrorModel {
    UnknownType { module: Seq<char>, name: Seq<char> },
    UnsupportedParamType,
    UnsupportedStatement,
    UnsupportedCallee,
    ParamNotFound { name: Seq<char> },
    FunctionNotFound { name: Seq<char> },
    VoidArgument { callee: Seq<char> },
}

impl View for CompileError {
    type V = CompileErrorModel;

    open spec fn view(&self) -> CompileErrorModel {
        match *self {
            CompileError::UnknownType { module, name } => CompileErrorModel::UnknownType {
                module: module@,
                name: name@,
            },
            CompileError::UnsupportedParamType => CompileErrorModel::UnsupportedParamType,
            CompileError::UnsupportedStatement => CompileErrorModel::UnsupportedStatement,
            CompileError::UnsupportedCallee => CompileErrorModel::UnsupportedCallee,
            CompileError::ParamNotFound { name } => CompileErrorModel::ParamNotFound {
                name: name@,
            },
            CompileError::FunctionNotFound { name } => CompileErrorModel::FunctionNotFound {
                name: name@,
            },
            CompileError::VoidArgument { callee } => CompileErrorModel::VoidArgument {
                callee: callee@,
            },
        }
    }
}

impl CompileError {
    /// Whether the failure can come from the user's program: a call to a
    /// function that does not exist. Every other failure shows a defect of
    /// the compiler or of an earlier stage.
    pub open spec fn spec_is_recoverable(&self) -> bool {
        *self is FunctionNotFound
    }

    #[verifier::when_used_as_spec(spec_is_recoverable)]
    pub fn is_recoverable(&self) -> (b: bool)
        ensures
            b == self.spec_is_recoverable(),
    {
        match self {
            CompileError::FunctionNotFound { .. } => true,
            _ => false,
        }
    }

    /// The line that the diagnostic stream shows for a missing callee,
    /// `Function '<name>' not found.`; `None` for every other failure.
    pub fn diagnostic(&self) -> (line: Option<String>)
        ensures
            match *self {
                CompileError::FunctionNotFound { name } => line matches Some(text)
                    && text@ == "Function '"@ + name@ + "' not found."@,
                _ => line is None,
            },
    {
        match self {
            CompileError::FunctionNotFound { name } => {
                let mut text = String::from_str("Function '");
                text.append(name.as_str());
                text.append("' not found.");
                Some(text)
            },
            _ => None,
        }
    }
}

} // verus!
