//! The native backend: lowers a typed program, item by item, into a module
//! that a code generator can emit as it stands.

use crate::ast::{
    Ident, TyExpr, TyExprKind, TyFn, TyFnParam, TyIntegerLiteral, TyItem, TyItemKind, TyLiteralKind,
    TyStmt, TyStmtKind, TyUint,
};
use crate::backend::error::{CompileError, CompileErrorModel};
use crate::backend::lower::{
    constant_global, declaration, final_return, find_function, find_param, is_first_param,
    is_first_unmapped, is_last_function, literal_bytes, lower_arg, lower_args, lower_call,
    lower_expr, lower_fn, lower_integer, lower_item, lower_items, lower_params, lower_stmt,
    lower_stmts, machine_type_of, param_names, unquote, with_body, LoweringModel,
};
use crate::backend::module::{
    body_view, names_view, values_view, Function, Global, Inst, InstModel, Linkage, MachineType,
    Module, ModuleModel, Value, ValueModel,
};
use crate::backend::prelude::{
    lemma_lower_program, lower_program, prelude_model, PRELUDE_FUNCTIONS,
};
use crate::backend::wellformed::{
    lemma_lower_args, lemma_lower_args_fails_later, lemma_lower_call, lemma_lower_stmts,
    lemma_lower_stmts_fails_later, returns_as_named,
};
use crate::text::{smol_as_str, smol_text};
use crate::thin::{ty_params, ty_params_slice};
use crate::typer::Type;
use smol_str::SmolStr;
use thin_vec::ThinVec;
use vstd::prelude::*;
use vstd::string::{StrSliceExecFns, StringExecFns};

verus! {

/// The state of lowering one function body: the module, whose last function
/// is the one being lowered, and the instructions emitted so far.
#[derive(Debug, PartialEq, Eq)]
pub struct Lowering {
    pub module: Module,
    pub body: Vec<Inst>,
}

impl View for Lowering {
    type V = LoweringModel;

    open spec fn view(&self) -> LoweringModel {
        LoweringModel { module: self.module@, body: body_view(self.body@) }
    }
}

impl Module {
    /// Looks `name` up in the symbol table: the index of the function of
    /// that name that was added last.
    pub fn find_function(&self, name: &String) -> (found: Option<usize>)
        ensures
            match found {
                Some(index) => find_function(self@.functions, name@) == Some(index as int),
                None => find_function(self@.functions, name@) is None,
            },
    {
        let mut index = self.functions.len();
        while index > 0
            invariant
                index <= self.functions.len(),
                forall|j: int|
                    index <= j < self.functions.len() ==> (#[trigger] self@.functions[j]).name
                        != name@,
            decreases index,
        {
            index -= 1;
            if self.functions[index].name == *name {
                proof {
                    assert(self@.functions[index as int].name == name@);
                    assert(is_last_function(self@.functions, name@, index as int));
                }
                return Some(index);
            }
        }
        None
    }
}

/// The index of the first of `params` that is called `name`.
pub fn param_index(params: &ThinVec<TyFnParam>, name: &String) -> (found: Option<usize>)
    ensures
        match found {
            Some(index) => find_param(ty_params(*params), name@) == Some(index as int),
            None => find_param(ty_params(*params), name@) is None,
        },
{
    let list = ty_params_slice(params);
    let mut index: usize = 0;
    while index < list.len()
        invariant
            list@ == ty_params(*params),
            index <= list@.len(),
            forall|j: int| 0 <= j < index ==> (#[trigger] list@[j]).name.name@ != name@,
        decreases list@.len() - index,
    {
        if list[index].name.name == *name {
            proof {
                assert(is_first_param(ty_params(*params), name@, index as int));
            }
            return Some(index);
        }
        index += 1;
    }
    None
}

/// The machine type that stands for a parameter of type `ty`: a pointer to
/// bytes for the prelude's `String`, a 64-bit integer for its `Uint64`.
pub fn machine_type(ty: &Type) -> (r: Result<MachineType, CompileError>)
    ensures
        match r {
            Ok(machine) => machine_type_of(*ty) == Ok::<_, CompileErrorModel>(machine),
            Err(e) => machine_type_of(*ty) == Err::<MachineType, _>(e@),
        },
{
    match ty {
        Type::Fn { .. } => Err(CompileError::UnsupportedParamType),
        Type::UserDefined { module, name } => {
            let prelude = String::from_str("std::prelude");
            if *module == prelude && *name == String::from_str("String") {
                Ok(MachineType::BytePtr)
            } else if *module == prelude && *name == String::from_str("Uint64") {
                Ok(MachineType::Int64)
            } else {
                Err(CompileError::UnknownType { module: module.clone(), name: name.clone() })
            }
        },
    }
}

/// The machine parameter list of a function: the machine type of each of
/// `params`, in declared order, or the failure of the first that has none.
pub fn machine_params(params: &ThinVec<TyFnParam>) -> (r: Result<Vec<MachineType>, CompileError>)
    ensures
        match r {
            Ok(machine) => lower_params(ty_params(*params)) == Ok::<_, CompileErrorModel>(
                machine@,
            ),
            Err(e) => lower_params(ty_params(*params)) == Err::<Seq<MachineType>, _>(e@),
        },
{
    let list = ty_params_slice(params);
    let mut machine: Vec<MachineType> = Vec::new();
    let mut index: usize = 0;
    while index < list.len()
        invariant
            list@ == ty_params(*params),
            index <= list@.len(),
            machine@.len() == index,
            forall|j: int|
                0 <= j < index ==> machine_type_of(#[trigger] list@[j].ty) == Ok::<
                    _,
                    CompileErrorModel,
                >(machine@[j]),
        decreases list@.len() - index,
    {
        match machine_type(&list[index].ty) {
            Ok(ty) => {
                machine.push(ty);
            },
            Err(e) => {
                proof {
                    assert(is_first_unmapped(ty_params(*params), index as int));
                    let first = choose|i: int| is_first_unmapped(ty_params(*params), i);
                    assert(first == index);
                }
                return Err(e);
            },
        }
        index += 1;
    }
    proof {
        let ps = ty_params(*params);
        assert(!exists|i: int| is_first_unmapped(ps, i));
        assert(machine@ =~= Seq::new(ps.len(), |i: int| machine_type_of(ps[i].ty)->Ok_0));
    }
    Ok(machine)
}

/// The declared names of `params`, in declared order.
pub fn declared_names(params: &ThinVec<TyFnParam>) -> (names: Vec<String>)
    ensures
        names_view(names@) == param_names(ty_params(*params)),
{
    let list = ty_params_slice(params);
    let mut names: Vec<String> = Vec::new();
    let mut index: usize = 0;
    while index < list.len()
        invariant
            list@ == ty_params(*params),
            index <= list@.len(),
            names@.len() == index,
            forall|j: int| 0 <= j < index ==> (#[trigger] names@[j])@ == list@[j].name.name@,
        decreases list@.len() - index,
    {
        names.push(list[index].name.name.clone());
        index += 1;
    }
    proof {
        assert(names_view(names@) =~= param_names(ty_params(*params)));
    }
    names
}

/// The backend. It holds nothing: each compilation starts from the prelude.
pub struct NativeBackend {}

impl NativeBackend {
    /// A backend.
    pub fn new() -> (backend: Self) {
        NativeBackend {  }
    }

    /// Lowers `program` into a module that starts with the prelude. The
    /// items are lowered in the reverse of their declared order, so that a
    /// function can call one that is declared after it; the first failure
    /// ends the compilation, and then there is no module.
    pub fn compile(&self, program: Vec<TyItem>) -> (r: Result<Module, CompileError>)
        ensures
            match r {
                Ok(module) => {
                    &&& lower_program(program@) == Ok::<_, CompileErrorModel>(module@)
                    &&& prelude_model().grows_to(module@)
                    &&& module@.well_formed()
                    &&& forall|f: int|
                        PRELUDE_FUNCTIONS <= f < module@.functions.len() ==> returns_as_named(
                            #[trigger] module@.functions[f],
                        )
                },
                Err(e) => lower_program(program@) == Err::<ModuleModel, _>(e@),
            },
    {
        let mut module = Module::prelude();
        let mut remaining = program.len();
        proof {
            assert(program@.take(remaining as int) =~= program@);
        }
        while remaining > 0
            invariant
                remaining <= program.len(),
                lower_items(prelude_model(), program@) == lower_items(
                    module@,
                    program@.take(remaining as int),
                ),
            decreases remaining,
        {
            let ghost items = program@.take(remaining as int);
            remaining -= 1;
            proof {
                assert(items.last() == program@[remaining as int]);
                assert(items.drop_last() =~= program@.take(remaining as int));
            }
            match Self::compile_item(module, &program[remaining]) {
                Ok(next) => {
                    module = next;
                },
                Err(e) => {
                    return Err(e);
                },
            }
        }
        proof {
            lemma_lower_program(program@);
        }
        Ok(module)
    }

    /// Lowers one top-level item into `module`. Only functions are lowered;
    /// a type declaration leaves the module as it is.
    pub fn compile_item(module: Module, item: &TyItem) -> (r: Result<Module, CompileError>)
        ensures
            match r {
                Ok(after) => lower_item(module@, *item) == Ok::<_, CompileErrorModel>(after@),
                Err(e) => lower_item(module@, *item) == Err::<ModuleModel, _>(e@),
            },
    {
        match &item.kind {
            TyItemKind::Fn(fun) => Self::compile_fn(module, &item.name, fun),
            _ => Ok(module),
        }
    }

    /// Lowers the function `fun` called `name` into `module`: declares it,
    /// so that its own body can call it, binds its parameters under their
    /// declared names, lowers its statements into one block, and ends the
    /// block with a return of zero for `main` and of nothing otherwise.
    #[verifier::loop_isolation(false)]
    pub fn compile_fn(module: Module, name: &Ident, fun: &TyFn) -> (r: Result<
        Module,
        CompileError,
    >)
        ensures
            match r {
                Ok(after) => lower_fn(module@, name.name@, *fun) == Ok::<_, CompileErrorModel>(
                    after@,
                ),
                Err(e) => lower_fn(module@, name.name@, *fun) == Err::<ModuleModel, _>(e@),
            },
    {
        let machine = match machine_params(&fun.params) {
            Ok(machine) => machine,
            Err(e) => {
                return Err(e);
            },
        };
        let main = name.name == String::from_str("main");
        let ret = if main {
            Some(MachineType::Int32)
        } else {
            None
        };
        let ghost params = ty_params(fun.params);
        let ghost start_model = LoweringModel {
            module: ModuleModel {
                functions: module@.functions.push(declaration(name.name@, params, machine@)),
                globals: module@.globals,
            },
            body: Seq::empty(),
        };
        let declared = Function {
            name: name.name.clone(),
            params: machine,
            param_names: declared_names(&fun.params),
            variadic: false,
            ret,
            linkage: Linkage::Default,
            body: None,
        };
        let mut module = module;
        module.functions.push(declared);
        let mut ctx = Lowering { module, body: Vec::new() };
        proof {
            assert(ctx@.module.functions =~= start_model.module.functions);
            assert(ctx@.module.globals =~= start_model.module.globals);
            assert(ctx@.body =~= start_model.body);
            assert(ctx@ == start_model);
            assert(start_model.module.functions.last().params.len() == params.len());
            assert(start_model.well_formed());
        }
        let mut index: usize = 0;
        while index < fun.body.len()
            invariant
                index <= fun.body.len(),
                lower_stmts(start_model, params, fun.body@.take(index as int)) == Ok::<
                    _,
                    CompileErrorModel,
                >(ctx@),
                params == ty_params(fun.params),
                start_model.well_formed(),
                params.len() == start_model.module.functions.last().params.len(),
            decreases fun.body.len() - index,
        {
            proof {
                let next = fun.body@.take(index + 1);
                assert(next.drop_last() =~= fun.body@.take(index as int));
                assert(next.last() == fun.body@[index as int]);
                lemma_lower_stmts(start_model, params, fun.body@.take(index as int));
                if index + 1 < fun.body.len() {
                    lemma_lower_stmts_fails_later(start_model, params, fun.body@, index + 1);
                } else {
                    assert(next =~= fun.body@);
                }
            }
            match Self::compile_stmt(ctx, &fun.params, &fun.body[index]) {
                Ok(next) => {
                    ctx = next;
                },
                Err(e) => {
                    proof {
                        assert(lower_stmts(start_model, params, fun.body@.take(index + 1))
                            == Err::<LoweringModel, _>(e@));
                        assert(lower_stmts(start_model, params, fun.body@) == Err::<
                            LoweringModel,
                            _,
                        >(e@));
                    }
                    return Err(e);
                },
            }
            index += 1;
        }
        proof {
            assert(fun.body@.take(index as int) =~= fun.body@);
            lemma_lower_stmts(start_model, params, fun.body@);
        }
        let value = if main {
            Some(Value::ConstInt { ty: MachineType::Int32, value: 0 })
        } else {
            None
        };
        let Lowering { mut module, mut body } = ctx;
        body.push(Inst::Return { value });
        let ghost end = ctx@;
        proof {
            assert(body_view(body@) =~= end.body.push(final_return(name.name@)));
        }
        let last = module.functions.pop().unwrap();
        let ghost rest = module@.functions;
        module.functions.push(
            Function {
                name: last.name,
                params: last.params,
                param_names: last.param_names,
                variadic: last.variadic,
                ret: last.ret,
                linkage: last.linkage,
                body: Some(body),
            },
        );
        proof {
            let want = with_body(end.module, end.body.push(final_return(name.name@)));
            assert(rest =~= end.module.functions.drop_last());
            assert(module@.functions =~= want.functions);
            assert(module@.globals =~= want.globals);
        }
        Ok(module)
    }

    /// Lowers one statement. A statement that is an expression is lowered
    /// and its value dropped; a nested item is refused.
    fn compile_stmt(ctx: Lowering, fn_params: &ThinVec<TyFnParam>, stmt: &TyStmt) -> (r: Result<
        Lowering,
        CompileError,
    >)
        requires
            ctx@.well_formed(),
            ty_params(*fn_params).len() == ctx@.module.functions.last().params.len(),
        ensures
            match r {
                Ok(after) => lower_stmt(ctx@, ty_params(*fn_params), *stmt) == Ok::<
                    _,
                    CompileErrorModel,
                >(after@),
                Err(e) => lower_stmt(ctx@, ty_params(*fn_params), *stmt) == Err::<
                    LoweringModel,
                    _,
                >(e@),
            },
    {
        match &stmt.kind {
            TyStmtKind::Expr(expr) => Self::compile_expr(ctx, fn_params, expr),
            TyStmtKind::Item(_) => Err(CompileError::UnsupportedStatement),
        }
    }

    /// Lowers an expression in statement position: a call is emitted, every
    /// other expression is lowered as an argument would be, and the value is
    /// dropped.
    fn compile_expr(ctx: Lowering, fn_params: &ThinVec<TyFnParam>, expr: &TyExpr) -> (r: Result<
        Lowering,
        CompileError,
    >)
        requires
            ctx@.well_formed(),
            ty_params(*fn_params).len() == ctx@.module.functions.last().params.len(),
        ensures
            match r {
                Ok(after) => lower_expr(ctx@, ty_params(*fn_params), *expr) == Ok::<
                    _,
                    CompileErrorModel,
                >(after@),
                Err(e) => lower_expr(ctx@, ty_params(*fn_params), *expr) == Err::<
                    LoweringModel,
                    _,
                >(e@),
            },
    {
        match &expr.kind {
            TyExprKind::Call { fun, args } => {
                match Self::compile_fn_call(ctx, fn_params, fun, args) {
                    Ok((after, _)) => Ok(after),
                    Err(e) => Err(e),
                }
            },
            _ => {
                match Self::compile_arg(ctx, fn_params, expr) {
                    Ok((after, _)) => Ok(after),
                    Err(e) => Err(e),
                }
            },
        }
    }

    /// Interns a string literal: a new private, constant global called
    /// `string_lit` that holds the text of `literal` without its quotes, in
    /// UTF-8 and zero-terminated. Yields the state and the global's index.
    /// Two equal literals make two globals.
    pub fn compile_string_literal(ctx: Lowering, literal: &SmolStr) -> (r: (Lowering, usize))
        ensures
            r.0@ == ctx@.intern(
                constant_global("string_lit"@, literal_bytes(smol_text(*literal))),
            ),
            r.1 == ctx@.module.globals.len(),
    {
        let literal = smol_as_str(literal);
        let length = literal.unicode_len();
        let text = if length >= 2 {
            literal.substring_char(1, length - 1)
        } else {
            literal.substring_char(0, 0)
        };
        proof {
            assert(text@ =~= unquote(literal@));
        }
        let mut bytes = text.as_bytes_vec();
        bytes.push(0u8);
        let mut ctx = ctx;
        let ghost before = ctx@;
        let index = ctx.module.globals.len();
        ctx.module.globals.push(
            Global {
                name: String::from_str("string_lit"),
                bytes,
                linkage: Linkage::Internal,
                constant: true,
            },
        );
        proof {
            let want = before.intern(constant_global("string_lit"@, literal_bytes(literal@)));
            assert(ctx@.module.globals =~= want.module.globals);
            assert(ctx@.module.functions =~= want.module.functions);
        }
        (ctx, index)
    }

    /// The immediate that an integer literal stands for: a 64-bit constant
    /// of the literal's value, reduced to 64 bits.
    pub fn compile_integer_literal(literal: &TyIntegerLiteral) -> (value: Value)
        ensures
            value@ == lower_integer(*literal),
    {
        match literal {
            TyIntegerLiteral::Unsigned(value, TyUint::Uint64) => Value::ConstInt {
                ty: MachineType::Int64,
                value: (*value % 0x1_0000_0000_0000_0000) as u64,
            },
        }
    }

    /// Lowers an expression that must yield a value, as an argument of a
    /// call does: a literal, a parameter of the enclosing function, or a call
    /// of a function that returns a value.
    fn compile_arg(ctx: Lowering, fn_params: &ThinVec<TyFnParam>, arg: &TyExpr) -> (r: Result<
        (Lowering, Value),
        CompileError,
    >)
        requires
            ctx@.well_formed(),
            ty_params(*fn_params).len() == ctx@.module.functions.last().params.len(),
        ensures
            match r {
                Ok((after, value)) => lower_arg(ctx@, ty_params(*fn_params), *arg) == Ok::<
                    _,
                    CompileErrorModel,
                >((after@, value@)),
                Err(e) => lower_arg(ctx@, ty_params(*fn_params), *arg) == Err::<
                    (LoweringModel, ValueModel),
                    _,
                >(e@),
            },
        decreases arg, 0nat,
    {
        match &arg.kind {
            TyExprKind::Literal(literal) => match &literal.kind {
                TyLiteralKind::String(lexeme) => {
                    let (after, index) = Self::compile_string_literal(ctx, lexeme);
                    Ok((after, Value::Global(index)))
                },
                TyLiteralKind::Integer(literal) => {
                    let value = Self::compile_integer_literal(literal);
                    Ok((ctx, value))
                },
            },
            TyExprKind::Variable { name } => match param_index(fn_params, &name.name) {
                Some(index) => Ok((ctx, Value::Param(index))),
                None => Err(CompileError::ParamNotFound { name: name.name.clone() }),
            },
            TyExprKind::Call { fun, args } => {
                proof {
                    lemma_lower_call(ctx@, ty_params(*fn_params), **fun, args@);
                }
                match Self::compile_fn_call(ctx, fn_params, fun, args) {
                    Err(e) => Err(e),
                    Ok((after, callee)) => {
                        let function = &after.module.functions[callee];
                        match function.ret {
                            None => Err(
                                CompileError::VoidArgument { callee: function.name.clone() },
                            ),
                            Some(_) => {
                                let index = after.body.len() - 1;
                                Ok((after, Value::Inst(index)))
                            },
                        }
                    },
                }
            },
        }
    }

    /// Lowers a call of `fun` with `args`: the callee must be a bare name
    /// that the symbol table holds; the arguments are lowered left to right;
    /// the call is emitted as the last instruction. Yields the state and the
    /// index of the callee in the module.
    #[verifier::loop_isolation(false)]
    fn compile_fn_call(
        ctx: Lowering,
        caller_params: &ThinVec<TyFnParam>,
        fun: &TyExpr,
        args: &Vec<TyExpr>,
    ) -> (r: Result<(Lowering, usize), CompileError>)
        requires
            ctx@.well_formed(),
            ty_params(*caller_params).len() == ctx@.module.functions.last().params.len(),
        ensures
            match r {
                Ok((after, callee)) => lower_call(ctx@, ty_params(*caller_params), *fun, args@)
                    == Ok::<_, CompileErrorModel>((after@, callee as nat)),
                Err(e) => lower_call(ctx@, ty_params(*caller_params), *fun, args@) == Err::<
                    (LoweringModel, nat),
                    _,
                >(e@),
            },
        decreases args, 1nat,
    {
        let callee_name = match &fun.kind {
            TyExprKind::Variable { name } => name,
            _ => {
                return Err(CompileError::UnsupportedCallee);
            },
        };
        let callee = match ctx.module.find_function(&callee_name.name) {
            Some(callee) => callee,
            None => {
                return Err(CompileError::FunctionNotFound { name: callee_name.name.clone() });
            },
        };
        let ghost start = ctx@;
        let ghost params = ty_params(*caller_params);
        let mut ctx = ctx;
        let mut values: Vec<Value> = Vec::new();
        let mut index: usize = 0;
        proof {
            assert(values_view(values@) =~= Seq::empty());
        }
        while index < args.len()
            invariant
                index <= args.len(),
                start.well_formed(),
                params == ty_params(*caller_params),
                params.len() == start.module.functions.last().params.len(),
                lower_args(start, params, args@, index as nat) == Ok::<_, CompileErrorModel>(
                    (ctx@, values_view(values@)),
                ),
            decreases args.len() - index,
        {
            proof {
                lemma_lower_args(start, params, args@, index as nat);
                if index + 1 < args.len() {
                    lemma_lower_args_fails_later(start, params, args@, index as nat + 1);
                }
            }
            match Self::compile_arg(ctx, caller_params, &args[index]) {
                Ok((after, value)) => {
                    ctx = after;
                    proof {
                        assert(values_view(values@.push(value)) =~= values_view(values@).push(
                            value@,
                        ));
                    }
                    values.push(value);
                },
                Err(e) => {
                    proof {
                        assert(lower_args(start, params, args@, index as nat + 1) == Err::<
                            (LoweringModel, Seq<ValueModel>),
                            _,
                        >(e@));
                        assert(lower_args(start, params, args@, args@.len()) == Err::<
                            (LoweringModel, Seq<ValueModel>),
                            _,
                        >(e@));
                    }
                    return Err(e);
                },
            }
            index += 1;
        }
        proof {
            assert(body_view(ctx.body@.push(Inst::Call { callee, args: values })) =~= body_view(
                ctx.body@,
            ).push(InstModel::Call { callee: callee as nat, args: values_view(values@) }));
        }
        ctx.body.push(Inst::Call { callee, args: values });
        Ok((ctx, callee))
    }

    /// What the outcome of verifying the function `fn_name` means: a
    /// verified function may be optimized, any other ends the compilation
    /// with the line `` `<fn_name>` not verified ``.
    pub fn verify_fn(fn_name: &str, verified: bool) -> (r: Result<(), String>)
        ensures
            verified <==> r is Ok,
            r matches Err(line) ==> line@ == "`"@ + fn_name@ + "` not verified"@,
    {
        if verified {
            Ok(())
        } else {
            let mut line = String::from_str("`");
            line.append(fn_name);
            line.append("` not verified");
            Err(line)
        }
    }
}

} // verus!
