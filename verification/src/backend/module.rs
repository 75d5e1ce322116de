//! The machine-level module that lowering produces: functions, their
//! instructions, and constant globals, all as plain data.

use vstd::prelude::*;

verus! {

/// How the machine represents a value.
#[derive(Clone, Copy, Debug, PartialEq, Eq, Structural)]
pub enum MachineType {
    /// A pointer to bytes.
    BytePtr,
    /// A 32-bit integer.
    Int32,
    /// A 64-bit integer.
    Int64,
}

/// How a symbol is visible to the linker.
#[derive(Clone, Copy, Debug, PartialEq, Eq, Structural)]
pub enum Linkage {
    /// The code generator's default.
    Default,
    /// Defined outside this module.
    External,
    /// Private to this module.
    Internal,
}

/// An operand of an instruction.
#[derive(Clone, Copy, Debug, PartialEq, Eq, Structural)]
pub enum Value {
    /// The parameter of the enclosing function at this index.
    Param(usize),
    /// The address of the module's global at this index.
    Global(usize),
    /// An immediate integer of the given width.
    ConstInt { ty: MachineType, value: u64 },
    /// The result of the instruction at this index of the enclosing body.
    Inst(usize),
}

/// A [`Value`] with its index as a natural number.
pub enum ValueModel {
    Param(nat),
    Global(nat),
    ConstInt { ty: MachineType, value: u64 },
    Inst(nat),
}

impl View for Value {
    type V = ValueModel;

    open spec fn view(&self) -> ValueModel {
        match *self {
            Value::Param(index) => ValueModel::Param(index as nat),
            Value::Global(index) => ValueModel::Global(index as nat),
            Value::ConstInt { ty, value } => ValueModel::ConstInt { ty, value },
            Value::Inst(index) => ValueModel::Inst(index as nat),
        }
    }
}

/// The values of `values`, each by its view.
pub open spec fn values_view(values: Seq<Value>) -> Seq<ValueModel> {
    Seq::new(values.len(), |i: int| values[i]@)
}

/// The view of a value that may be absent.
pub open spec fn optional_view(value: Option<Value>) -> Option<ValueModel> {
    match value {
        Some(value) => Some(value@),
        None => None,
    }
}

/// One instruction of a function body.
#[derive(Debug, PartialEq, Eq)]
pub enum Inst {
    /// Calls the module's function at index `callee`.
    Call { callee: usize, args: Vec<Value> },
    /// Adds two integers.
    IntAdd { lhs: Value, rhs: Value },
    /// Allocates room for one value of type `ty` on the heap.
    Malloc { ty: MachineType },
    /// Leaves the function.
    Return { value: Option<Value> },
}

/// An [`Inst`] with its operands as a sequence and its indices as natural
/// numbers.
pub enum InstModel {
    Call { callee: nat, args: Seq<ValueModel> },
    IntAdd { lhs: ValueModel, rhs: ValueModel },
    Malloc { ty: MachineType },
    Return { value: Option<ValueModel> },
}

impl View for Inst {
    type V = InstModel;

    open spec fn view(&self) -> InstModel {
        match *self {
            Inst::Call { callee, args } => InstModel::Call {
                callee: callee as nat,
                args: values_view(args@),
            },
            Inst::IntAdd { lhs, rhs } => InstModel::IntAdd { lhs: lhs@, rhs: rhs@ },
            Inst::Malloc { ty } => InstModel::Malloc { ty },
            Inst::Return { value } => InstModel::Return { value: optional_view(value) },
        }
    }
}

/// The instructions of `body`, each by its view.
pub open spec fn body_view(body: Seq<Inst>) -> Seq<InstModel> {
    Seq::new(body.len(), |i: int| body[i]@)
}

/// The strings of `names`, each by its view.
pub open spec fn names_view(names: Seq<String>) -> Seq<Seq<char>> {
    Seq::new(names.len(), |i: int| names[i]@)
}

/// A function of the module: a declaration, with a body unless it is
/// defined elsewhere.
#[derive(Debug, PartialEq, Eq)]
pub struct Function {
    pub name: String,
    pub params: Vec<MachineType>,
    /// The names bound to the parameters, index by index; empty where the
    /// parameters are unnamed.
    pub param_names: Vec<String>,
    pub variadic: bool,
    /// `None` for a function that returns no value.
    pub ret: Option<MachineType>,
    pub linkage: Linkage,
    /// `None` for a declaration without a body.
    pub body: Option<Vec<Inst>>,
}

pub struct FunctionModel {
    pub name: Seq<char>,
    pub params: Seq<MachineType>,
    pub param_names: Seq<Seq<char>>,
    pub variadic: bool,
    pub ret: Option<MachineType>,
    pub linkage: Linkage,
    pub body: Option<Seq<InstModel>>,
}

impl View for Function {
    type V = FunctionModel;

    open spec fn view(&self) -> FunctionModel {
        FunctionModel {
            name: self.name@,
            params: self.params@,
            param_names: names_view(self.param_names@),
            variadic: self.variadic,
            ret: self.ret,
            linkage: self.linkage,
            body: match self.body {
                Some(body) => Some(body_view(body@)),
                None => None,
            },
        }
    }
}

/// A constant or variable of the module, with its initial bytes.
#[derive(Debug, PartialEq, Eq)]
pub struct Global {
    pub name: String,
    pub bytes: Vec<u8>,
    pub linkage: Linkage,
    pub constant: bool,
}

pub struct GlobalModel {
    pub name: Seq<char>,
    pub bytes: Seq<u8>,
    pub linkage: Linkage,
    pub constant: bool,
}

impl View for Global {
    type V = GlobalModel;

    open spec fn view(&self) -> GlobalModel {
        GlobalModel {
            name: self.name@,
            bytes: self.bytes@,
            linkage: self.linkage,
            constant: self.constant,
        }
    }
}

/// One compilation unit: every function and global that lowering made, in
/// the order in which they were made.
#[derive(Debug, PartialEq, Eq)]
pub struct Module {
    pub functions: Vec<Function>,
    pub globals: Vec<Global>,
}

pub struct ModuleModel {
    pub functions: Seq<FunctionModel>,
    pub globals: Seq<GlobalModel>,
}

impl View for Module {
    type V = ModuleModel;

    open spec fn view(&self) -> ModuleModel {
        ModuleModel {
            functions: Seq::new(self.functions@.len(), |i: int| self.functions@[i]@),
            globals: Seq::new(self.globals@.len(), |i: int| self.globals@[i]@),
        }
    }
}

} // verus!
