//! The runtime prelude: the functions that every program may call without
//! declaring them.

use crate::backend::module::{
    body_view, values_view, Function, FunctionModel, Global, GlobalModel, Inst, InstModel, Linkage,
    MachineType, Module, ModuleModel, Value, ValueModel,
};
use crate::ast::TyItem;
use crate::backend::error::CompileErrorModel;
use crate::backend::lower::lower_items;
use crate::backend::wellformed::{function_ok, inst_ok, lemma_lower_items, returns_as_named};
use vstd::prelude::*;
use vstd::string::StringExecFns;

verus! {

/// The index of the binding of the C runtime's `puts`.
pub const PUTS: usize = 0;

/// The index of the binding of the C runtime's `sprintf`.
pub const SPRINTF: usize = 1;

/// The index of the binding of the C runtime's `printf`.
pub const PRINTF: usize = 2;

/// The number of functions in the prelude.
pub const PRELUDE_FUNCTIONS: usize = 7;

/// A binding of a function of the C runtime that returns a 32-bit integer.
pub open spec fn external_model(
    name: Seq<char>,
    params: Seq<MachineType>,
    variadic: bool,
) -> FunctionModel {
    FunctionModel {
        name,
        params,
        param_names: Seq::empty(),
        variadic,
        ret: Some(MachineType::Int32),
        linkage: Linkage::External,
        body: None,
    }
}

/// A helper of the backend with unnamed parameters and a body.
pub open spec fn builtin_model(
    name: Seq<char>,
    params: Seq<MachineType>,
    ret: Option<MachineType>,
    body: Seq<InstModel>,
) -> FunctionModel {
    FunctionModel {
        name,
        params,
        param_names: Seq::empty(),
        variadic: false,
        ret,
        linkage: Linkage::Default,
        body: Some(body),
    }
}

/// A private constant that holds a format template with its terminator.
pub open spec fn template_model(name: Seq<char>, bytes: Seq<u8>) -> GlobalModel {
    GlobalModel { name, bytes, linkage: Linkage::Internal, constant: true }
}

/// `print`: formats its argument with the template `%1$s` through `printf`.
pub open spec fn print_body() -> Seq<InstModel> {
    seq![
        InstModel::Call { callee: PRINTF as nat, args: seq![ValueModel::Global(0), ValueModel::Param(0)] },
        InstModel::Return { value: None },
    ]
}

/// `println`: hands its argument to `puts`.
pub open spec fn println_body() -> Seq<InstModel> {
    seq![
        InstModel::Call { callee: PUTS as nat, args: seq![ValueModel::Param(0)] },
        InstModel::Return { value: None },
    ]
}

/// `int_add`: one addition of its two parameters.
pub open spec fn int_add_body() -> Seq<InstModel> {
    seq![
        InstModel::IntAdd { lhs: ValueModel::Param(0), rhs: ValueModel::Param(1) },
        InstModel::Return { value: Some(ValueModel::Inst(0)) },
    ]
}

/// `int_to_string`: allocates a buffer, formats its argument into it with
/// the template `%1$d` through `sprintf`, and returns the buffer. Nothing
/// frees the buffer.
pub open spec fn int_to_string_body() -> Seq<InstModel> {
    seq![
        InstModel::Malloc { ty: MachineType::BytePtr },
        InstModel::Call {
            callee: SPRINTF as nat,
            args: seq![ValueModel::Inst(0), ValueModel::Global(1), ValueModel::Param(0)],
        },
        InstModel::Return { value: Some(ValueModel::Inst(0)) },
    ]
}

/// The functions of the prelude, in the order in which they are made.
pub open spec fn prelude_functions() -> Seq<FunctionModel> {
    seq![
        external_model("puts"@, seq![MachineType::BytePtr], false),
        external_model("sprintf"@, seq![MachineType::BytePtr, MachineType::BytePtr], true),
        external_model("printf"@, seq![MachineType::BytePtr], true),
        builtin_model("print"@, seq![MachineType::BytePtr], None, print_body()),
        builtin_model("println"@, seq![MachineType::BytePtr], None, println_body()),
        builtin_model(
            "int_add"@,
            seq![MachineType::Int64, MachineType::Int64],
            Some(MachineType::Int64),
            int_add_body(),
        ),
        builtin_model(
            "int_to_string"@,
            seq![MachineType::Int64],
            Some(MachineType::BytePtr),
            int_to_string_body(),
        ),
    ]
}

/// The globals of the prelude: the templates `%1$s` and `%1$d`, each with
/// its terminating zero.
pub open spec fn prelude_globals() -> Seq<GlobalModel> {
    seq![
        template_model("print_template"@, seq![0x25u8, 0x31u8, 0x24u8, 0x73u8, 0u8]),
        template_model("int_to_string_template"@, seq![0x25u8, 0x31u8, 0x24u8, 0x64u8, 0u8]),
    ]
}

/// The module before any user function is lowered.
pub open spec fn prelude_model() -> ModuleModel {
    ModuleModel { functions: prelude_functions(), globals: prelude_globals() }
}

fn external(name: &str, params: Vec<MachineType>, variadic: bool) -> (f: Function)
    ensures
        f@ == external_model(name@, params@, variadic),
{
    let f = Function {
        name: String::from_str(name),
        params,
        param_names: Vec::new(),
        variadic,
        ret: Some(MachineType::Int32),
        linkage: Linkage::External,
        body: None,
    };
    assert(f@.param_names =~= Seq::empty());
    f
}

fn builtin(name: &str, params: Vec<MachineType>, ret: Option<MachineType>, body: Vec<Inst>) -> (f:
    Function)
    ensures
        f@ == builtin_model(name@, params@, ret, body_view(body@)),
{
    let f = Function {
        name: String::from_str(name),
        params,
        param_names: Vec::new(),
        variadic: false,
        ret,
        linkage: Linkage::Default,
        body: Some(body),
    };
    assert(f@.param_names =~= Seq::empty());
    f
}

fn template(name: &str, conversion: u8) -> (g: Global)
    ensures
        g@ == template_model(name@, seq![0x25u8, 0x31u8, 0x24u8, conversion, 0u8]),
{
    let mut bytes: Vec<u8> = Vec::new();
    bytes.push(0x25u8);
    bytes.push(0x31u8);
    bytes.push(0x24u8);
    bytes.push(conversion);
    bytes.push(0u8);
    assert(bytes@ =~= seq![0x25u8, 0x31u8, 0x24u8, conversion, 0u8]);
    Global { name: String::from_str(name), bytes, linkage: Linkage::Internal, constant: true }
}

fn print_builtin() -> (f: Function)
    ensures
        f@ == prelude_functions()[3],
{
    let mut args: Vec<Value> = Vec::new();
    args.push(Value::Global(0));
    args.push(Value::Param(0));
    let mut body: Vec<Inst> = Vec::new();
    body.push(Inst::Call { callee: PRINTF, args });
    body.push(Inst::Return { value: None });
    let mut params: Vec<MachineType> = Vec::new();
    params.push(MachineType::BytePtr);
    proof {
        assert(values_view(args@) =~= seq![ValueModel::Global(0), ValueModel::Param(0)]);
        assert(body_view(body@) =~= print_body());
        assert(params@ =~= seq![MachineType::BytePtr]);
    }
    builtin("print", params, None, body)
}

fn println_builtin() -> (f: Function)
    ensures
        f@ == prelude_functions()[4],
{
    let mut args: Vec<Value> = Vec::new();
    args.push(Value::Param(0));
    let mut body: Vec<Inst> = Vec::new();
    body.push(Inst::Call { callee: PUTS, args });
    body.push(Inst::Return { value: None });
    let mut params: Vec<MachineType> = Vec::new();
    params.push(MachineType::BytePtr);
    proof {
        assert(values_view(args@) =~= seq![ValueModel::Param(0)]);
        assert(body_view(body@) =~= println_body());
        assert(params@ =~= seq![MachineType::BytePtr]);
    }
    builtin("println", params, None, body)
}

fn int_add_builtin() -> (f: Function)
    ensures
        f@ == prelude_functions()[5],
{
    let mut body: Vec<Inst> = Vec::new();
    body.push(Inst::IntAdd { lhs: Value::Param(0), rhs: Value::Param(1) });
    body.push(Inst::Return { value: Some(Value::Inst(0)) });
    let mut params: Vec<MachineType> = Vec::new();
    params.push(MachineType::Int64);
    params.push(MachineType::Int64);
    proof {
        assert(body_view(body@) =~= int_add_body());
        assert(params@ =~= seq![MachineType::Int64, MachineType::Int64]);
    }
    builtin("int_add", params, Some(MachineType::Int64), body)
}

fn int_to_string_builtin() -> (f: Function)
    ensures
        f@ == prelude_functions()[6],
{
    let mut args: Vec<Value> = Vec::new();
    args.push(Value::Inst(0));
    args.push(Value::Global(1));
    args.push(Value::Param(0));
    let mut body: Vec<Inst> = Vec::new();
    body.push(Inst::Malloc { ty: MachineType::BytePtr });
    body.push(Inst::Call { callee: SPRINTF, args });
    body.push(Inst::Return { value: Some(Value::Inst(0)) });
    let mut params: Vec<MachineType> = Vec::new();
    params.push(MachineType::Int64);
    proof {
        assert(values_view(args@) =~= seq![ValueModel::Inst(0), ValueModel::Global(1), ValueModel::Param(0)]);
        assert(body_view(body@) =~= int_to_string_body());
        assert(params@ =~= seq![MachineType::Int64]);
    }
    builtin("int_to_string", params, Some(MachineType::BytePtr), body)
}

fn byte_ptrs(count: usize) -> (params: Vec<MachineType>)
    ensures
        params@ == Seq::new(count as nat, |i: int| MachineType::BytePtr),
{
    let mut params: Vec<MachineType> = Vec::new();
    while params.len() < count
        invariant
            params@.len() <= count,
            forall|i: int| 0 <= i < params@.len() ==> params@[i] == MachineType::BytePtr,
        decreases count - params@.len(),
    {
        params.push(MachineType::BytePtr);
    }
    assert(params@ =~= Seq::new(count as nat, |i: int| MachineType::BytePtr));
    params
}

impl Module {
    /// The module that every compilation starts from: the three bindings of
    /// the C runtime, the four helpers of the backend, and their templates.
    pub fn prelude() -> (module: Module)
        ensures
            module@ == prelude_model(),
    {
        let mut functions: Vec<Function> = Vec::new();
        let one = byte_ptrs(1);
        let two = byte_ptrs(2);
        let again = byte_ptrs(1);
        proof {
            assert(one@ =~= seq![MachineType::BytePtr]);
            assert(two@ =~= seq![MachineType::BytePtr, MachineType::BytePtr]);
            assert(again@ =~= seq![MachineType::BytePtr]);
        }
        functions.push(external("puts", one, false));
        functions.push(external("sprintf", two, true));
        functions.push(external("printf", again, true));
        functions.push(print_builtin());
        functions.push(println_builtin());
        functions.push(int_add_builtin());
        functions.push(int_to_string_builtin());
        let mut globals: Vec<Global> = Vec::new();
        globals.push(template("print_template", 0x73u8));
        globals.push(template("int_to_string_template", 0x64u8));
        let module = Module { functions, globals };
        proof {
            assert(module@.functions =~= prelude_functions());
            assert(module@.globals =~= prelude_globals());
        }
        module
    }
}

/// The module that a program stands for: its items, lowered into the
/// prelude.
pub open spec fn lower_program(items: Seq<TyItem>) -> Result<ModuleModel, CompileErrorModel> {
    lower_items(prelude_model(), items)
}

/// The prelude is sound: every operand in it refers to something that
/// exists, and each body ends with its only return.
pub proof fn lemma_prelude_well_formed()
    ensures
        prelude_model().well_formed(),
{
    let m = prelude_model();
    assert forall|f: int| 0 <= f < m.functions.len() implies #[trigger] function_ok(m, f) by {
        if let Some(body) = m.functions[f].body {
            assert forall|k: int| 0 <= k < body.len() implies #[trigger] inst_ok(
                m,
                m.functions[f].params.len(),
                body,
                k,
            ) by {
                let before = body.take(k);
                if f == 5 && k == 1 {
                    assert(before[0] == body[0]);
                }
                if f == 6 && k >= 1 {
                    assert(before[0] == body[0]);
                }
            }
        }
    }
}

/// Every module that lowering makes of a program starts with the whole
/// prelude, unchanged, whatever the program calls; it is sound; and each
/// function that the program added returns as its name asks: `main` a
/// 32-bit integer, with zero at the end of its body, every other function
/// nothing.
pub proof fn lemma_lower_program(items: Seq<TyItem>)
    ensures
        lower_program(items) matches Ok(module) ==> {
            &&& prelude_model().grows_to(module)
            &&& module.well_formed()
            &&& forall|f: int|
                PRELUDE_FUNCTIONS <= f < module.functions.len() ==> returns_as_named(
                    #[trigger] module.functions[f],
                )
        },
{
    lemma_prelude_well_formed();
    lemma_lower_items(prelude_model(), items);
}

} // verus!
