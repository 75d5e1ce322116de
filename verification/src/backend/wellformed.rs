//! What holds of every module that lowering makes: each operand refers to
//! something that exists, and what was made once is never changed.

use crate::ast::{
    TyExpr, TyExprKind, TyFn, TyFnParam, TyItem, TyItemKind, TyLiteralKind, TyStmt, TyStmtKind,
};
use crate::backend::lower::{
    declaration, final_return, find_function, find_param, is_first_param, is_last_function,
    lower_arg, lower_args, lower_call, lower_expr, lower_fn, lower_item, lower_items, lower_params,
    lower_stmts, param_names, return_type_of, with_body, LoweringModel,
};
use crate::backend::error::CompileErrorModel;
use crate::backend::module::{FunctionModel, InstModel, Linkage, ModuleModel, ValueModel};
use crate::thin::ty_params;
use vstd::prelude::*;

verus! {

/// Whether the instruction leaves a value that later instructions can use.
pub open spec fn yields_value(functions: Seq<FunctionModel>, inst: InstModel) -> bool {
    match inst {
        InstModel::Call { callee, .. } => callee < functions.len()
            && functions[callee as int].ret is Some,
        InstModel::IntAdd { .. } => true,
        InstModel::Malloc { .. } => true,
        InstModel::Return { .. } => false,
    }
}

/// Whether `value` can stand as an operand after the instructions `before`,
/// in a function of `param_count` parameters.
pub open spec fn value_ok(
    module: ModuleModel,
    param_count: nat,
    before: Seq<InstModel>,
    value: ValueModel,
) -> bool {
    match value {
        ValueModel::Param(index) => index < param_count,
        ValueModel::Global(index) => index < module.globals.len(),
        ValueModel::ConstInt { .. } => true,
        ValueModel::Inst(index) => index < before.len() && yields_value(
            module.functions,
            before[index as int],
        ),
    }
}

/// Whether the instruction at `index` of `body` uses only what exists
/// before it.
pub open spec fn inst_ok(
    module: ModuleModel,
    param_count: nat,
    body: Seq<InstModel>,
    index: int,
) -> bool {
    let before = body.take(index);
    match body[index] {
        InstModel::Call { callee, args } => callee < module.functions.len() && forall|a: int|
            0 <= a < args.len() ==> value_ok(module, param_count, before, #[trigger] args[a]),
        InstModel::IntAdd { lhs, rhs } => value_ok(module, param_count, before, lhs) && value_ok(
            module,
            param_count,
            before,
            rhs,
        ),
        InstModel::Malloc { .. } => true,
        InstModel::Return { value: Some(value) } => value_ok(module, param_count, before, value),
        InstModel::Return { value: None } => true,
    }
}

/// Whether every instruction of `body` uses only what exists before it.
pub open spec fn body_ok(module: ModuleModel, param_count: nat, body: Seq<InstModel>) -> bool {
    forall|k: int| 0 <= k < body.len() ==> #[trigger] inst_ok(module, param_count, body, k)
}

/// Whether the function at `index` of `module` is sound: its parameters are
/// all named or all unnamed, and its body, if it has one, is not empty, ends
/// with its only return, and uses only what exists.
pub open spec fn function_ok(module: ModuleModel, index: int) -> bool {
    let f = module.functions[index];
    &&& f.param_names.len() == 0 || f.param_names.len() == f.params.len()
    &&& f.body matches Some(body) ==> {
        &&& body.len() > 0
        &&& body.last() is Return
        &&& forall|k: int| 0 <= k < body.len() - 1 ==> !((#[trigger] body[k]) is Return)
        &&& body_ok(module, f.params.len(), body)
    }
}

impl ModuleModel {
    /// Whether every function of the module is sound.
    pub open spec fn well_formed(self) -> bool {
        forall|f: int| 0 <= f < self.functions.len() ==> #[trigger] function_ok(self, f)
    }

    /// Whether `later` holds everything that `self` holds, at the same
    /// indices and unchanged.
    pub open spec fn grows_to(self, later: ModuleModel) -> bool {
        self.functions.is_prefix_of(later.functions) && self.globals.is_prefix_of(later.globals)
    }
}

impl LoweringModel {
    /// Whether the state is sound: the function being lowered exists, the
    /// instructions emitted so far use only what exists, and none of them
    /// returns.
    pub open spec fn well_formed(self) -> bool {
        &&& self.module.functions.len() > 0
        &&& body_ok(self.module, self.module.functions.last().params.len(), self.body)
        &&& forall|k: int| 0 <= k < self.body.len() ==> !((#[trigger] self.body[k]) is Return)
    }

    /// Whether `later` can follow `self` in the lowering of one body: the
    /// functions are the same, and the globals and the instructions have
    /// only grown.
    pub open spec fn grows_to(self, later: LoweringModel) -> bool {
        &&& later.module.functions == self.module.functions
        &&& self.module.globals.is_prefix_of(later.module.globals)
        &&& self.body.is_prefix_of(later.body)
    }
}

/// Whether `later` has every function of `earlier` at the same index and
/// with the same return type, and at least as many globals.
pub open spec fn keeps_signatures(earlier: ModuleModel, later: ModuleModel) -> bool {
    &&& earlier.functions.len() <= later.functions.len()
    &&& earlier.globals.len() <= later.globals.len()
    &&& forall|f: int|
        0 <= f < earlier.functions.len() ==> (#[trigger] later.functions[f]).ret
            == earlier.functions[f].ret
}

/// A value that was a sound operand stays one when functions, globals and
/// instructions are added.
pub proof fn lemma_value_ok_grows(
    earlier: ModuleModel,
    later: ModuleModel,
    param_count: nat,
    before: Seq<InstModel>,
    later_before: Seq<InstModel>,
    value: ValueModel,
)
    requires
        keeps_signatures(earlier, later),
        before.is_prefix_of(later_before),
        value_ok(earlier, param_count, before, value),
    ensures
        value_ok(later, param_count, later_before, value),
{
    if let ValueModel::Inst(index) = value {
        assert(before[index as int] == later_before[index as int]);
        if let InstModel::Call { callee, .. } = before[index as int] {
            assert(later.functions[callee as int].ret == earlier.functions[callee as int].ret);
        }
    }
}

/// A sound body stays sound when functions and globals are added and
/// instructions are appended to it that are sound themselves.
pub proof fn lemma_body_ok_grows(
    earlier: ModuleModel,
    later: ModuleModel,
    param_count: nat,
    body: Seq<InstModel>,
    later_body: Seq<InstModel>,
)
    requires
        keeps_signatures(earlier, later),
        body.is_prefix_of(later_body),
        body_ok(earlier, param_count, body),
        forall|k: int|
            body.len() <= k < later_body.len() ==> #[trigger] inst_ok(
                later,
                param_count,
                later_body,
                k,
            ),
    ensures
        body_ok(later, param_count, later_body),
{
    assert forall|k: int| 0 <= k < later_body.len() implies #[trigger] inst_ok(
        later,
        param_count,
        later_body,
        k,
    ) by {
        if k < body.len() {
            assert(inst_ok(earlier, param_count, body, k));
            assert(body.take(k) =~= later_body.take(k));
            assert(body[k] == later_body[k]);
            let before = body.take(k);
            assert(before.is_prefix_of(before));
            match body[k] {
                InstModel::Call { callee, args } => {
                    assert forall|a: int| 0 <= a < args.len() implies value_ok(
                        later,
                        param_count,
                        before,
                        #[trigger] args[a],
                    ) by {
                        lemma_value_ok_grows(earlier, later, param_count, before, before, args[a]);
                    }
                },
                InstModel::IntAdd { lhs, rhs } => {
                    lemma_value_ok_grows(earlier, later, param_count, before, before, lhs);
                    lemma_value_ok_grows(earlier, later, param_count, before, before, rhs);
                },
                InstModel::Malloc { .. } => {},
                InstModel::Return { value } => {
                    if let Some(value) = value {
                        lemma_value_ok_grows(earlier, later, param_count, before, before, value);
                    }
                },
            }
        }
    }
}

/// Lowering an argument keeps the state sound and only adds to it, and the
/// value that it yields is a sound operand for the next instruction.
pub proof fn lemma_lower_arg(st: LoweringModel, params: Seq<TyFnParam>, expr: TyExpr)
    requires
        st.well_formed(),
        params.len() == st.module.functions.last().params.len(),
    ensures
        lower_arg(st, params, expr) matches Ok((after, value)) ==> {
            &&& st.grows_to(after)
            &&& after.well_formed()
            &&& value_ok(after.module, params.len(), after.body, value)
        },
    decreases expr, 0nat,
{
    assert(st.grows_to(st));
    match expr.kind {
        TyExprKind::Literal(literal) => {
            match literal.kind {
                TyLiteralKind::String(_) => {
                    let (after, _) = lower_arg(st, params, expr)->Ok_0;
                    assert(st.grows_to(after));
                    lemma_body_ok_grows(st.module, after.module, params.len(), st.body, after.body);
                },
                TyLiteralKind::Integer(_) => {},
            }
        },
        TyExprKind::Variable { name } => {
            if let Some(index) = find_param(params, name.name@) {
                assert(is_first_param(params, name.name@, index));
            }
        },
        TyExprKind::Call { fun, args } => {
            lemma_lower_call(st, params, *fun, args@);
        },
    }
}

/// Lowering arguments keeps the state sound and only adds to it, and yields
/// one sound operand for each argument.
pub proof fn lemma_lower_args(
    st: LoweringModel,
    params: Seq<TyFnParam>,
    args: Seq<TyExpr>,
    count: nat,
)
    requires
        st.well_formed(),
        params.len() == st.module.functions.last().params.len(),
        count <= args.len(),
    ensures
        lower_args(st, params, args, count) matches Ok((after, values)) ==> {
            &&& st.grows_to(after)
            &&& after.well_formed()
            &&& values.len() == count
            &&& forall|a: int|
                0 <= a < values.len() ==> value_ok(
                    after.module,
                    params.len(),
                    after.body,
                    #[trigger] values[a],
                )
        },
    decreases args, count,
{
    assert(st.grows_to(st));
    if count > 0 {
        lemma_lower_args(st, params, args, (count - 1) as nat);
        if let Ok((before, values)) = lower_args(st, params, args, (count - 1) as nat) {
            lemma_lower_arg(before, params, args[count - 1]);
            if let Ok((after, value)) = lower_arg(before, params, args[count - 1]) {
                let all = values.push(value);
                assert(st.grows_to(after));
                assert forall|a: int| 0 <= a < all.len() implies value_ok(
                    after.module,
                    params.len(),
                    after.body,
                    #[trigger] all[a],
                ) by {
                    if a < values.len() {
                        lemma_value_ok_grows(
                            before.module,
                            after.module,
                            params.len(),
                            before.body,
                            after.body,
                            values[a],
                        );
                    }
                }
            }
        }
    }
}

/// Lowering a call keeps the state sound and only adds to it; the call is
/// the last instruction, and its callee is a function of the module.
pub proof fn lemma_lower_call(
    st: LoweringModel,
    params: Seq<TyFnParam>,
    fun: TyExpr,
    args: Seq<TyExpr>,
)
    requires
        st.well_formed(),
        params.len() == st.module.functions.last().params.len(),
    ensures
        lower_call(st, params, fun, args) matches Ok((after, callee)) ==> {
            &&& st.grows_to(after)
            &&& after.well_formed()
            &&& callee < after.module.functions.len()
            &&& after.body.len() > 0
            &&& after.body.last() matches InstModel::Call { callee: c, .. } && c == callee
        },
    decreases args, args.len() + 1,
{
    if let TyExprKind::Variable { name } = fun.kind {
        if let Some(callee) = find_function(st.module.functions, name.name@) {
            assert(is_last_function(st.module.functions, name.name@, callee));
            lemma_lower_args(st, params, args, args.len());
            if let Ok((mid, values)) = lower_args(st, params, args, args.len()) {
                let inst = InstModel::Call { callee: callee as nat, args: values };
                let after = mid.emit(inst);
                assert(after.body.take(mid.body.len() as int) =~= mid.body);
                assert(inst_ok(after.module, params.len(), after.body, mid.body.len() as int));
                assert(mid.grows_to(after));
                lemma_body_ok_grows(mid.module, after.module, params.len(), mid.body, after.body);
                assert(st.grows_to(after));
            }
        }
    }
}

/// Lowering an expression in statement position keeps the state sound and
/// only adds to it.
pub proof fn lemma_lower_expr(st: LoweringModel, params: Seq<TyFnParam>, expr: TyExpr)
    requires
        st.well_formed(),
        params.len() == st.module.functions.last().params.len(),
    ensures
        lower_expr(st, params, expr) matches Ok(after) ==> st.grows_to(after)
            && after.well_formed(),
{
    match expr.kind {
        TyExprKind::Call { fun, args } => lemma_lower_call(st, params, *fun, args@),
        _ => lemma_lower_arg(st, params, expr),
    }
}

/// Lowering statements keeps the state sound and only adds to it.
pub proof fn lemma_lower_stmts(st: LoweringModel, params: Seq<TyFnParam>, stmts: Seq<TyStmt>)
    requires
        st.well_formed(),
        params.len() == st.module.functions.last().params.len(),
    ensures
        lower_stmts(st, params, stmts) matches Ok(after) ==> st.grows_to(after)
            && after.well_formed(),
    decreases stmts.len(),
{
    assert(st.grows_to(st));
    if stmts.len() > 0 {
        lemma_lower_stmts(st, params, stmts.drop_last());
        if let Ok(before) = lower_stmts(st, params, stmts.drop_last()) {
            if let TyStmtKind::Expr(expr) = stmts.last().kind {
                lemma_lower_expr(before, params, expr);
                if let Ok(after) = lower_expr(before, params, expr) {
                    assert(st.grows_to(after));
                }
            }
        }
    }
}

/// Whether `f` is what lowering makes of a function called `name` with the
/// parameters `params`: its machine parameters are those of `params` in
/// declared order and under their names, it returns what its name asks
/// for, and its body ends with the return that its name asks for.
pub open spec fn lowered_from(f: FunctionModel, name: Seq<char>, params: Seq<TyFnParam>) -> bool {
    &&& f.name == name
    &&& lower_params(params) == Ok::<_, CompileErrorModel>(f.params)
    &&& f.param_names == param_names(params)
    &&& !f.variadic
    &&& f.ret == return_type_of(name)
    &&& f.linkage == Linkage::Default
    &&& f.body matches Some(body) && body.len() > 0 && body.last() == final_return(name)
}

/// Whether `f` returns as a user function of its name does: the entry point
/// returns a 32-bit integer and ends by returning zero, every other function
/// returns nothing.
pub open spec fn returns_as_named(f: FunctionModel) -> bool {
    &&& f.ret == return_type_of(f.name)
    &&& f.body matches Some(body) && body.len() > 0 && body.last() == final_return(f.name)
}

/// Lowering a function adds exactly one function to a sound module, keeps
/// the module sound and everything that it held unchanged, and the new
/// function is what [`lowered_from`] describes.
pub proof fn lemma_lower_fn(module: ModuleModel, name: Seq<char>, fun: TyFn)
    requires
        module.well_formed(),
    ensures
        lower_fn(module, name, fun) matches Ok(after) ==> {
            &&& module.grows_to(after)
            &&& after.well_formed()
            &&& after.functions.len() == module.functions.len() + 1
            &&& lowered_from(after.functions.last(), name, ty_params(fun.params))
        },
{
    let params = ty_params(fun.params);
    if let Ok(machine_params) = lower_params(params) {
        let start = LoweringModel {
            module: ModuleModel {
                functions: module.functions.push(declaration(name, params, machine_params)),
                globals: module.globals,
            },
            body: Seq::empty(),
        };
        lemma_lower_stmts(start, params, fun.body@);
        if let Ok(end) = lower_stmts(start, params, fun.body@) {
            let body = end.body.push(final_return(name));
            let after = with_body(end.module, body);
            let last = module.functions.len() as int;
            assert(after.functions.len() == last + 1);
            assert(module.functions =~= after.functions.take(last));
            assert(module.grows_to(after));
            assert(keeps_signatures(end.module, after));
            assert(keeps_signatures(module, after));
            assert(end.body.is_prefix_of(body));
            assert(body.take(end.body.len() as int) =~= end.body);
            assert(inst_ok(after, params.len(), body, end.body.len() as int));
            lemma_body_ok_grows(end.module, after, params.len(), end.body, body);
            assert forall|f: int| 0 <= f < after.functions.len() implies #[trigger] function_ok(
                after,
                f,
            ) by {
                if f < last {
                    assert(function_ok(module, f));
                    assert(after.functions[f] == module.functions[f]);
                    if let Some(old_body) = module.functions[f].body {
                        lemma_body_ok_grows(
                            module,
                            after,
                            module.functions[f].params.len(),
                            old_body,
                            old_body,
                        );
                    }
                }
            }
        }
    }
}

/// Lowering an item keeps a sound module sound and everything that it held
/// unchanged, and every function that it adds returns as its name asks.
pub proof fn lemma_lower_item(module: ModuleModel, item: TyItem)
    requires
        module.well_formed(),
    ensures
        lower_item(module, item) matches Ok(after) ==> {
            &&& module.grows_to(after)
            &&& after.well_formed()
            &&& forall|f: int|
                module.functions.len() <= f < after.functions.len() ==> returns_as_named(
                    #[trigger] after.functions[f],
                )
        },
{
    assert(module.grows_to(module));
    if let TyItemKind::Fn(fun) = item.kind {
        lemma_lower_fn(module, item.name.name@, *fun);
    }
}

/// Lowering a program keeps a sound module sound and everything that it
/// held unchanged, and every function that it adds returns as its name asks.
pub proof fn lemma_lower_items(module: ModuleModel, items: Seq<TyItem>)
    requires
        module.well_formed(),
    ensures
        lower_items(module, items) matches Ok(after) ==> {
            &&& module.grows_to(after)
            &&& after.well_formed()
            &&& forall|f: int|
                module.functions.len() <= f < after.functions.len() ==> returns_as_named(
                    #[trigger] after.functions[f],
                )
        },
    decreases items.len(),
{
    assert(module.grows_to(module));
    if items.len() > 0 {
        lemma_lower_item(module, items.last());
        if let Ok(next) = lower_item(module, items.last()) {
            lemma_lower_items(next, items.drop_last());
            if let Ok(after) = lower_items(next, items.drop_last()) {
                assert(module.grows_to(after));
                assert forall|f: int|
                    module.functions.len() <= f < after.functions.len() implies returns_as_named(
                    #[trigger] after.functions[f],
                ) by {
                    if f < next.functions.len() {
                        assert(after.functions[f] == next.functions[f]);
                    }
                }
            }
        }
    }
}

/// Once the first `count` statements fail, so do all of them.
pub proof fn lemma_lower_stmts_fails_later(
    st: LoweringModel,
    params: Seq<TyFnParam>,
    stmts: Seq<TyStmt>,
    count: int,
)
    requires
        0 <= count <= stmts.len(),
    ensures
        lower_stmts(st, params, stmts.take(count)) matches Err(e) ==> lower_stmts(
            st,
            params,
            stmts,
        ) == Err::<LoweringModel, _>(e),
    decreases stmts.len(),
{
    if count < stmts.len() {
        assert(stmts.drop_last().take(count) =~= stmts.take(count));
        lemma_lower_stmts_fails_later(st, params, stmts.drop_last(), count);
    } else {
        assert(stmts.take(count) =~= stmts);
    }
}

/// Once the first `count` arguments fail, so do all of them.
pub proof fn lemma_lower_args_fails_later(
    st: LoweringModel,
    params: Seq<TyFnParam>,
    args: Seq<TyExpr>,
    count: nat,
)
    requires
        count <= args.len(),
    ensures
        lower_args(st, params, args, count) matches Err(e) ==> lower_args(
            st,
            params,
            args,
            args.len(),
        ) == Err::<(LoweringModel, Seq<ValueModel>), _>(e),
    decreases args.len() - count,
{
    if count < args.len() {
        lemma_lower_args_fails_later(st, params, args, count + 1);
    }
}

} // verus!
