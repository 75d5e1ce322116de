//! What lowering means: the module that a typed program stands for, as
//! functions on sequences.

use crate::ast::{
    TyExpr, TyExprKind, TyFn, TyFnParam, TyIntegerLiteral, TyItem, TyItemKind, TyLiteralKind,
    TyStmt, TyStmtKind, TyUint,
};
use crate::backend::error::CompileErrorModel;
use crate::backend::module::{
    FunctionModel, GlobalModel, InstModel, Linkage, MachineType, ModuleModel, ValueModel,
};
use crate::text::smol_text;
use crate::thin::ty_params;
use crate::typer::Type;
use vstd::prelude::*;
use vstd::utf8::encode_utf8;

verus! {

/// The state of lowering one function body: the module, whose last function
/// is the one being lowered, and the instructions emitted so far.
pub struct LoweringModel {
    pub module: ModuleModel,
    pub body: Seq<InstModel>,
}

/// The machine type that stands for a parameter of type `ty`.
pub open spec fn machine_type_of(ty: Type) -> Result<MachineType, CompileErrorModel> {
    match ty {
        Type::Fn { .. } => Err(CompileErrorModel::UnsupportedParamType),
        Type::UserDefined { module, name } => {
            if module@ == "std::prelude"@ && name@ == "String"@ {
                Ok(MachineType::BytePtr)
            } else if module@ == "std::prelude"@ && name@ == "Uint64"@ {
                Ok(MachineType::Int64)
            } else {
                Err(CompileErrorModel::UnknownType { module: module@, name: name@ })
            }
        },
    }
}

/// Whether `index` is the first parameter whose type has no machine type.
pub open spec fn is_first_unmapped(params: Seq<TyFnParam>, index: int) -> bool {
    &&& 0 <= index < params.len()
    &&& machine_type_of(params[index].ty) is Err
    &&& forall|j: int| 0 <= j < index ==> machine_type_of(#[trigger] params[j].ty) is Ok
}

/// The machine parameter list of a function: the machine type of each
/// parameter, in declared order, or the failure of the first parameter that
/// has none.
pub open spec fn lower_params(params: Seq<TyFnParam>) -> Result<
    Seq<MachineType>,
    CompileErrorModel,
> {
    if exists|i: int| is_first_unmapped(params, i) {
        let i = choose|i: int| is_first_unmapped(params, i);
        Err(machine_type_of(params[i].ty)->Err_0)
    } else {
        Ok(Seq::new(params.len(), |i: int| machine_type_of(params[i].ty)->Ok_0))
    }
}

/// The declared names of `params`, in declared order.
pub open spec fn param_names(params: Seq<TyFnParam>) -> Seq<Seq<char>> {
    Seq::new(params.len(), |i: int| params[i].name.name@)
}

/// Whether `index` is the first parameter called `name`.
pub open spec fn is_first_param(params: Seq<TyFnParam>, name: Seq<char>, index: int) -> bool {
    &&& 0 <= index < params.len()
    &&& params[index].name.name@ == name
    &&& forall|j: int| 0 <= j < index ==> (#[trigger] params[j]).name.name@ != name
}

/// The index of the first parameter called `name`.
pub open spec fn find_param(params: Seq<TyFnParam>, name: Seq<char>) -> Option<int> {
    if exists|i: int| is_first_param(params, name, i) {
        Some(choose|i: int| is_first_param(params, name, i))
    } else {
        None
    }
}

/// Whether `index` is the function called `name` that was added last.
pub open spec fn is_last_function(
    functions: Seq<FunctionModel>,
    name: Seq<char>,
    index: int,
) -> bool {
    &&& 0 <= index < functions.len()
    &&& functions[index].name == name
    &&& forall|j: int| index < j < functions.len() ==> (#[trigger] functions[j]).name != name
}

/// The symbol table: the index of the function that `name` stands for. Of
/// two functions of one name the later one shadows the earlier.
pub open spec fn find_function(functions: Seq<FunctionModel>, name: Seq<char>) -> Option<int> {
    if exists|i: int| is_last_function(functions, name, i) {
        Some(choose|i: int| is_last_function(functions, name, i))
    } else {
        None
    }
}

/// The text of a string literal without its first and its last character.
pub open spec fn unquote(lexeme: Seq<char>) -> Seq<char> {
    if lexeme.len() >= 2 {
        lexeme.subrange(1, lexeme.len() - 1)
    } else {
        Seq::empty()
    }
}

/// The bytes of the global that holds a string literal: the unquoted text in
/// UTF-8, then a terminating zero.
pub open spec fn literal_bytes(lexeme: Seq<char>) -> Seq<u8> {
    encode_utf8(unquote(lexeme)).push(0u8)
}

/// A private, constant global called `name` that holds `bytes`.
pub open spec fn constant_global(name: Seq<char>, bytes: Seq<u8>) -> GlobalModel {
    GlobalModel { name, bytes, linkage: Linkage::Internal, constant: true }
}

impl LoweringModel {
    /// The state after one more instruction.
    pub open spec fn emit(self, inst: InstModel) -> LoweringModel {
        LoweringModel { module: self.module, body: self.body.push(inst) }
    }

    /// The state after one more global.
    pub open spec fn intern(self, global: GlobalModel) -> LoweringModel {
        LoweringModel {
            module: ModuleModel {
                functions: self.module.functions,
                globals: self.module.globals.push(global),
            },
            body: self.body,
        }
    }
}

/// The immediate that an integer literal stands for.
pub open spec fn lower_integer(literal: TyIntegerLiteral) -> ValueModel {
    match literal {
        TyIntegerLiteral::Unsigned(value, TyUint::Uint64) => ValueModel::ConstInt {
            ty: MachineType::Int64,
            value: (value % 0x1_0000_0000_0000_0000) as u64,
        },
    }
}

/// Lowers an expression that must yield a value: an argument of a call.
pub open spec fn lower_arg(st: LoweringModel, params: Seq<TyFnParam>, expr: TyExpr) -> Result<
    (LoweringModel, ValueModel),
    CompileErrorModel,
>
    decreases expr, 0nat,
{
    match expr.kind {
        TyExprKind::Literal(literal) => match literal.kind {
            TyLiteralKind::String(lexeme) => Ok(
                (
                    st.intern(constant_global("string_lit"@, literal_bytes(smol_text(lexeme)))),
                    ValueModel::Global(st.module.globals.len()),
                ),
            ),
            TyLiteralKind::Integer(literal) => Ok((st, lower_integer(literal))),
        },
        TyExprKind::Variable { name } => match find_param(params, name.name@) {
            Some(index) => Ok((st, ValueModel::Param(index as nat))),
            None => Err(CompileErrorModel::ParamNotFound { name: name.name@ }),
        },
        TyExprKind::Call { fun, args } => match lower_call(st, params, *fun, args@) {
            Err(e) => Err(e),
            Ok((after, callee)) => if after.module.functions[callee as int].ret is None {
                Err(
                    CompileErrorModel::VoidArgument {
                        callee: after.module.functions[callee as int].name,
                    },
                )
            } else {
                Ok((after, ValueModel::Inst((after.body.len() - 1) as nat)))
            },
        },
    }
}

/// Lowers the first `count` of `args`, left to right.
pub open spec fn lower_args(
    st: LoweringModel,
    params: Seq<TyFnParam>,
    args: Seq<TyExpr>,
    count: nat,
) -> Result<(LoweringModel, Seq<ValueModel>), CompileErrorModel>
    decreases args, count,
{
    if count == 0 || count > args.len() {
        Ok((st, Seq::empty()))
    } else {
        match lower_args(st, params, args, (count - 1) as nat) {
            Err(e) => Err(e),
            Ok((before, values)) => match lower_arg(before, params, args[count - 1]) {
                Err(e) => Err(e),
                Ok((after, value)) => Ok((after, values.push(value))),
            },
        }
    }
}

/// Lowers a call of `fun` with `args`: resolves the callee, lowers the
/// arguments, and emits the call as the last instruction. Yields the state
/// and the index of the callee in the module.
pub open spec fn lower_call(
    st: LoweringModel,
    params: Seq<TyFnParam>,
    fun: TyExpr,
    args: Seq<TyExpr>,
) -> Result<(LoweringModel, nat), CompileErrorModel>
    decreases args, args.len() + 1,
{
    match fun.kind {
        TyExprKind::Variable { name } => match find_function(st.module.functions, name.name@) {
            None => Err(CompileErrorModel::FunctionNotFound { name: name.name@ }),
            Some(callee) => match lower_args(st, params, args, args.len()) {
                Err(e) => Err(e),
                Ok((after, values)) => Ok(
                    (
                        after.emit(InstModel::Call { callee: callee as nat, args: values }),
                        callee as nat,
                    ),
                ),
            },
        },
        _ => Err(CompileErrorModel::UnsupportedCallee),
    }
}

/// Lowers an expression in statement position: its value, if it has one, is
/// dropped.
pub open spec fn lower_expr(st: LoweringModel, params: Seq<TyFnParam>, expr: TyExpr) -> Result<
    LoweringModel,
    CompileErrorModel,
> {
    match expr.kind {
        TyExprKind::Call { fun, args } => match lower_call(st, params, *fun, args@) {
            Err(e) => Err(e),
            Ok((after, _)) => Ok(after),
        },
        _ => match lower_arg(st, params, expr) {
            Err(e) => Err(e),
            Ok((after, _)) => Ok(after),
        },
    }
}

/// Lowers one statement.
pub open spec fn lower_stmt(st: LoweringModel, params: Seq<TyFnParam>, stmt: TyStmt) -> Result<
    LoweringModel,
    CompileErrorModel,
> {
    match stmt.kind {
        TyStmtKind::Expr(expr) => lower_expr(st, params, expr),
        TyStmtKind::Item(_) => Err(CompileErrorModel::UnsupportedStatement),
    }
}

/// Lowers the statements of a body in order; the first failure ends it.
pub open spec fn lower_stmts(st: LoweringModel, params: Seq<TyFnParam>, stmts: Seq<TyStmt>) -> Result<
    LoweringModel,
    CompileErrorModel,
>
    decreases stmts.len(),
{
    if stmts.len() == 0 {
        Ok(st)
    } else {
        match lower_stmts(st, params, stmts.drop_last()) {
            Err(e) => Err(e),
            Ok(before) => lower_stmt(before, params, stmts.last()),
        }
    }
}

/// Whether a function of this name is the program's entry point.
pub open spec fn is_main(name: Seq<char>) -> bool {
    name == "main"@
}

/// What a function of this name returns: the entry point a 32-bit exit
/// code, every other function nothing.
pub open spec fn return_type_of(name: Seq<char>) -> Option<MachineType> {
    if is_main(name) {
        Some(MachineType::Int32)
    } else {
        None
    }
}

/// The instruction that ends the body of a function of this name: the entry
/// point returns zero, every other function returns nothing.
pub open spec fn final_return(name: Seq<char>) -> InstModel {
    InstModel::Return {
        value: if is_main(name) {
            Some(ValueModel::ConstInt { ty: MachineType::Int32, value: 0 })
        } else {
            None
        },
    }
}

/// The declaration of a user function, before its body is lowered.
pub open spec fn declaration(
    name: Seq<char>,
    params: Seq<TyFnParam>,
    machine_params: Seq<MachineType>,
) -> FunctionModel {
    FunctionModel {
        name,
        params: machine_params,
        param_names: param_names(params),
        variadic: false,
        ret: return_type_of(name),
        linkage: Linkage::Default,
        body: None,
    }
}

/// `module` with `body` as the body of its last function.
pub open spec fn with_body(module: ModuleModel, body: Seq<InstModel>) -> ModuleModel {
    let last = module.functions.last();
    ModuleModel {
        functions: module.functions.drop_last().push(
            FunctionModel {
                name: last.name,
                params: last.params,
                param_names: last.param_names,
                variadic: last.variadic,
                ret: last.ret,
                linkage: last.linkage,
                body: Some(body),
            },
        ),
        globals: module.globals,
    }
}

/// Lowers the function `fun` called `name` into `module`: declares it, so
/// that its own body can call it, lowers its statements, and ends the body
/// with the return that its name asks for.
pub open spec fn lower_fn(module: ModuleModel, name: Seq<char>, fun: TyFn) -> Result<
    ModuleModel,
    CompileErrorModel,
> {
    let params = ty_params(fun.params);
    match lower_params(params) {
        Err(e) => Err(e),
        Ok(machine_params) => {
            let start = LoweringModel {
                module: ModuleModel {
                    functions: module.functions.push(declaration(name, params, machine_params)),
                    globals: module.globals,
                },
                body: Seq::empty(),
            };
            match lower_stmts(start, params, fun.body@) {
                Err(e) => Err(e),
                Ok(end) => Ok(with_body(end.module, end.body.push(final_return(name)))),
            }
        },
    }
}

/// Lowers one top-level item. Only functions are lowered; a type
/// declaration leaves the module as it is.
pub open spec fn lower_item(module: ModuleModel, item: TyItem) -> Result<
    ModuleModel,
    CompileErrorModel,
> {
    match item.kind {
        TyItemKind::Fn(fun) => lower_fn(module, item.name.name@, *fun),
        _ => Ok(module),
    }
}

/// Lowers the items of a program into `module`, the last declared first; the
/// first failure ends it.
pub open spec fn lower_items(module: ModuleModel, items: Seq<TyItem>) -> Result<
    ModuleModel,
    CompileErrorModel,
>
    decreases items.len(),
{
    if items.len() == 0 {
        Ok(module)
    } else {
        match lower_item(module, items.last()) {
            Err(e) => Err(e),
            Ok(next) => lower_items(next, items.drop_last()),
        }
    }
}

} // verus!
