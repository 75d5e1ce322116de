//! How names resolve while a program is lowered: what the symbol table
//! holds at each step, and what follows from lowering the items in the
//! reverse of their declared order.

use crate::ast::{TyExpr, TyExprKind, TyFn, TyFnParam, TyItem, TyStmtKind};
use crate::backend::error::CompileErrorModel;
use crate::backend::lower::{
    declaration, find_function, is_first_unmapped, is_last_function, lower_call, lower_fn,
    lower_item, lower_items, lower_params, machine_type_of, LoweringModel,
};
use crate::backend::module::{FunctionModel, MachineType, ModuleModel};
use crate::backend::wellformed::{
    lemma_lower_fn, lemma_lower_items, lemma_lower_stmts, lemma_lower_stmts_fails_later,
};
use crate::thin::ty_params;
use vstd::prelude::*;

verus! {

/// Whether some function of `functions` is called `name`.
pub open spec fn declares(functions: Seq<FunctionModel>, name: Seq<char>) -> bool {
    exists|i: int| 0 <= i < functions.len() && (#[trigger] functions[i]).name == name
}

/// The symbol table finds a name exactly when some function bears it, and
/// then it finds the one that was added last.
pub proof fn lemma_find_function(functions: Seq<FunctionModel>, name: Seq<char>)
    ensures
        find_function(functions, name) is Some <==> declares(functions, name),
        find_function(functions, name) matches Some(index) ==> is_last_function(
            functions,
            name,
            index,
        ),
    decreases functions.len(),
{
    if declares(functions, name) {
        let last = functions.len() - 1;
        if functions[last].name == name {
            assert(is_last_function(functions, name, last));
        } else {
            let i = choose|i: int| 0 <= i < functions.len() && (#[trigger] functions[i]).name == name;
            let rest = functions.drop_last();
            assert(rest[i].name == name);
            lemma_find_function(rest, name);
            let found = find_function(rest, name)->Some_0;
            assert(is_last_function(rest, name, found));
            assert forall|j: int| found < j < functions.len() implies (#[trigger] functions[j]).name
                != name by {
                if j < last {
                    assert(rest[j].name != name);
                }
            }
            assert(is_last_function(functions, name, found));
        }
    }
    if let Some(index) = find_function(functions, name) {
        assert(is_last_function(functions, name, index));
    }
}

/// A function that was added last is the one that its name stands for: it
/// shadows every earlier function of that name.
pub proof fn lemma_last_write_wins(functions: Seq<FunctionModel>, f: FunctionModel)
    ensures
        find_function(functions.push(f), f.name) == Some(functions.len() as int),
{
    let all = functions.push(f);
    assert(is_last_function(all, f.name, functions.len() as int));
    let found = choose|i: int| is_last_function(all, f.name, i);
    assert(all[functions.len() as int].name == f.name);
}

/// A name that the symbol table holds stays in it when functions are added.
pub proof fn lemma_declared_stays(
    earlier: Seq<FunctionModel>,
    later: Seq<FunctionModel>,
    name: Seq<char>,
)
    requires
        earlier.is_prefix_of(later),
        find_function(earlier, name) is Some,
    ensures
        find_function(later, name) is Some,
{
    lemma_find_function(earlier, name);
    lemma_find_function(later, name);
    let i = choose|i: int| 0 <= i < earlier.len() && (#[trigger] earlier[i]).name == name;
    assert(later[i] == earlier[i]);
}

/// To lower a program is to lower its items from index `k` on, and then, in
/// the module that this gives, the items before `k`.
pub proof fn lemma_lower_items_split(module: ModuleModel, items: Seq<TyItem>, k: int)
    requires
        0 <= k <= items.len(),
    ensures
        lower_items(module, items) == match lower_items(module, items.skip(k)) {
            Err(e) => Err(e),
            Ok(table) => lower_items(table, items.take(k)),
        },
    decreases items.len() - k,
{
    if k == items.len() {
        assert(items.skip(k) =~= Seq::empty());
        assert(items.take(k) =~= items);
    } else {
        let tail = items.skip(k);
        assert(tail.last() == items.last());
        assert(tail.drop_last() =~= items.drop_last().skip(k));
        assert(items.drop_last().take(k) =~= items.take(k));
        if let Ok(next) = lower_item(module, items.last()) {
            if k < items.len() - 1 {
                lemma_lower_items_split(next, items.drop_last(), k);
            } else {
                assert(tail.drop_last() =~= Seq::empty());
                assert(items.take(k) =~= items.drop_last());
            }
        }
    }
}

/// A function may call one that is declared after it: when the item at `i`
/// is lowered, which is after every item behind it, the symbol table holds
/// the name of each function declared behind it.
pub proof fn lemma_later_function_is_declared(
    module: ModuleModel,
    items: Seq<TyItem>,
    i: int,
    j: int,
)
    requires
        module.well_formed(),
        0 <= i < j < items.len(),
        items[j].kind is Fn,
        lower_items(module, items.skip(i + 1)) is Ok,
    ensures
        find_function(
            lower_items(module, items.skip(i + 1))->Ok_0.functions,
            items[j].name.name@,
        ) is Some,
{
    let name = items[j].name.name@;
    let behind = items.skip(i + 1);
    let at = j - (i + 1);
    assert(behind[at] == items[j]);
    lemma_lower_items_split(module, behind, at + 1);
    let far = behind.skip(at + 1);
    let near = behind.take(at + 1);
    let reached = lower_items(module, far)->Ok_0;
    lemma_lower_items(module, far);
    assert(near.last() == items[j]);
    let fun = items[j].kind->Fn_0;
    lemma_lower_fn(reached, name, *fun);
    let declared = lower_item(reached, items[j])->Ok_0;
    assert(declared.functions.last().name == name);
    lemma_find_function(declared.functions, name);
    lemma_lower_items(declared, near.drop_last());
    lemma_declared_stays(
        declared.functions,
        lower_items(declared, near.drop_last())->Ok_0.functions,
        name,
    );
}

/// A call of a name that the symbol table lacks fails, and the failure
/// bears that name.
pub proof fn lemma_unresolved_call(
    st: LoweringModel,
    params: Seq<TyFnParam>,
    fun: TyExpr,
    args: Seq<TyExpr>,
)
    requires
        fun.kind is Variable,
        find_function(st.module.functions, fun.kind->Variable_name.name@) is None,
    ensures
        lower_call(st, params, fun, args) == Err::<(LoweringModel, nat), _>(
            CompileErrorModel::FunctionNotFound { name: fun.kind->Variable_name.name@ },
        ),
{
}

/// Whether `expr` is a call of the bare name `name`.
pub open spec fn calls(expr: TyExpr, name: Seq<char>) -> bool {
    expr.kind matches TyExprKind::Call { fun, .. } && fun.kind matches TyExprKind::Variable {
        name: callee,
    } && callee.name@ == name
}

/// A function fails to lower when one of its statements calls a name that
/// is neither its own nor in the symbol table: no function is made of it.
pub proof fn lemma_call_before_declaration_fails(
    module: ModuleModel,
    name: Seq<char>,
    fun: TyFn,
    k: int,
    callee: Seq<char>,
)
    requires
        0 <= k < fun.body@.len(),
        fun.body@[k].kind matches TyStmtKind::Expr(expr) && calls(expr, callee),
        callee != name,
        find_function(module.functions, callee) is None,
    ensures
        lower_fn(module, name, fun) is Err,
{
    let params = ty_params(fun.params);
    if let Ok(machine_params) = lower_params(params) {
        let start = LoweringModel {
            module: ModuleModel {
                functions: module.functions.push(declaration(name, params, machine_params)),
                globals: module.globals,
            },
            body: Seq::empty(),
        };
        let stmts = fun.body@;
        lemma_find_function(module.functions, callee);
        lemma_find_function(start.module.functions, callee);
        if declares(start.module.functions, callee) {
            let i = choose|i: int|
                0 <= i < start.module.functions.len() && (
                #[trigger] start.module.functions[i]).name == callee;
            assert(module.functions[i].name == callee);
        }
        lemma_lower_stmts(start, params, stmts.take(k));
        lemma_lower_stmts_fails_later(start, params, stmts, k + 1);
        let upto = stmts.take(k + 1);
        assert(upto.drop_last() =~= stmts.take(k));
        assert(upto.last() == stmts[k]);
    }
}

/// Two functions that call each other cannot both be lowered: the one
/// declared second is lowered first, when the symbol table lacks the name
/// of the other, so the program fails.
pub proof fn lemma_mutual_recursion_fails(
    module: ModuleModel,
    first: TyItem,
    second: TyItem,
    k: int,
)
    requires
        second.kind is Fn,
        0 <= k < second.kind->Fn_0.body@.len(),
        second.kind->Fn_0.body@[k].kind matches TyStmtKind::Expr(expr) && calls(
            expr,
            first.name.name@,
        ),
        first.name.name@ != second.name.name@,
        find_function(module.functions, first.name.name@) is None,
    ensures
        lower_items(module, seq![first, second]) is Err,
{
    let items = seq![first, second];
    assert(items.last() == second);
    lemma_call_before_declaration_fails(
        module,
        second.name.name@,
        *second.kind->Fn_0,
        k,
        first.name.name@,
    );
}

/// Whether `index` is a parameter with one of the two supported types.
pub open spec fn is_supported(params: Seq<TyFnParam>, index: int) -> bool {
    machine_type_of(params[index].ty) is Ok
}

/// The machine parameters of a function are the machine types of its
/// parameters, one for one and in declared order, exactly when every
/// parameter has a supported type; otherwise the first unsupported parameter
/// gives the failure.
pub proof fn lemma_parameter_mapping(params: Seq<TyFnParam>)
    ensures
        lower_params(params) is Ok <==> forall|i: int|
            0 <= i < params.len() ==> #[trigger] is_supported(params, i),
        lower_params(params) matches Ok(machine) ==> machine.len() == params.len() && forall|
            i: int,
        |
            0 <= i < params.len() ==> machine_type_of(params[i].ty) == Ok::<
                _,
                CompileErrorModel,
            >(#[trigger] machine[i]),
        lower_params(params) matches Err(e) ==> exists|i: int| #[trigger]
            is_first_unmapped(params, i) && machine_type_of(params[i].ty) == Err::<
                MachineType,
                _,
            >(e),
{
    if exists|i: int| is_first_unmapped(params, i) {
        let i = choose|i: int| is_first_unmapped(params, i);
        assert(!is_supported(params, i));
    } else {
        assert forall|i: int| 0 <= i < params.len() implies #[trigger] is_supported(
            params,
            i,
        ) by {
            lemma_first_unmapped(params, i);
        }
        let machine = lower_params(params)->Ok_0;
        assert forall|i: int| 0 <= i < params.len() implies machine_type_of(params[i].ty) == Ok::<
            _,
            CompileErrorModel,
        >(#[trigger] machine[i]) by {
            assert(is_supported(params, i));
        }
    }
}

/// Where a parameter has no machine type, some parameter is the first such.
proof fn lemma_first_unmapped(params: Seq<TyFnParam>, index: int)
    requires
        0 <= index < params.len(),
    ensures
        !is_supported(params, index) ==> exists|i: int| is_first_unmapped(params, i),
    decreases index,
{
    if !is_supported(params, index) {
        if forall|j: int| 0 <= j < index ==> machine_type_of(#[trigger] params[j].ty) is Ok {
            assert(is_first_unmapped(params, index));
        } else {
            let j = choose|j: int| 0 <= j < index && !(machine_type_of(#[trigger] params[j].ty) is Ok);
            lemma_first_unmapped(params, j);
        }
    }
}

} // verus!
