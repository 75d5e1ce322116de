//! Lowering is a function of what a program says: two programs that agree
//! in every name, text, number and type lower to the same module or fail
//! alike, wherever their parts stand in the source.

use crate::ast::{
    TyExpr, TyExprKind, TyFn, TyFnParam, TyItem, TyItemKind, TyLiteralKind, TyStmt, TyStmtKind,
};
use crate::backend::lower::{
    declaration, find_param, is_first_param, is_first_unmapped, lower_arg, lower_args, lower_call,
    lower_item, lower_items, lower_params, lower_stmts, machine_type_of, param_names,
    LoweringModel,
};
use crate::backend::module::ModuleModel;
use crate::backend::prelude::{lower_program, prelude_model};
use crate::text::smol_text;
use crate::thin::ty_params;
use crate::typer::Type;
use vstd::prelude::*;

verus! {

/// Whether two types are both function types, or name the same nominal
/// type.
pub open spec fn alike_type(a: Type, b: Type) -> bool {
    match a {
        Type::Fn { .. } => b is Fn,
        Type::UserDefined { module, name } => b matches Type::UserDefined {
            module: other_module,
            name: other_name,
        } && module@ == other_module@ && name@ == other_name@,
    }
}

/// Whether two parameter lists have the same names and like types, one for
/// one.
pub open spec fn alike_params(a: Seq<TyFnParam>, b: Seq<TyFnParam>) -> bool {
    &&& a.len() == b.len()
    &&& forall|i: int|
        0 <= i < a.len() ==> (#[trigger] a[i]).name.name@ == b[i].name.name@ && alike_type(
            a[i].ty,
            b[i].ty,
        )
}

/// Whether two expressions say the same: the same literal, the same name,
/// or a call of like callees with like arguments.
pub open spec fn alike_expr(a: TyExpr, b: TyExpr) -> bool
    decreases a,
{
    match a.kind {
        TyExprKind::Literal(literal) => b.kind matches TyExprKind::Literal(other) && match literal.kind {
            TyLiteralKind::String(text) => other.kind matches TyLiteralKind::String(other_text)
                && smol_text(text) == smol_text(other_text),
            TyLiteralKind::Integer(value) => other.kind matches TyLiteralKind::Integer(
                other_value,
            ) && value == other_value,
        },
        TyExprKind::Variable { name } => b.kind matches TyExprKind::Variable { name: other }
            && name.name@ == other.name@,
        TyExprKind::Call { fun, args } => b.kind matches TyExprKind::Call {
            fun: other_fun,
            args: other_args,
        } && alike_expr(*fun, *other_fun) && args@.len() == other_args@.len() && forall|i: int|
            0 <= i < args@.len() ==> alike_expr(#[trigger] args@[i], other_args@[i]),
    }
}

/// Whether two statements are like expressions, or are both nested items.
pub open spec fn alike_stmt(a: TyStmt, b: TyStmt) -> bool {
    match a.kind {
        TyStmtKind::Expr(expr) => b.kind matches TyStmtKind::Expr(other) && alike_expr(expr, other),
        TyStmtKind::Item(_) => b.kind is Item,
    }
}

/// Whether two functions have like parameters and like statements, one for
/// one.
pub open spec fn alike_fn(a: TyFn, b: TyFn) -> bool {
    &&& alike_params(ty_params(a.params), ty_params(b.params))
    &&& a.body@.len() == b.body@.len()
    &&& forall|i: int| 0 <= i < a.body@.len() ==> alike_stmt(#[trigger] a.body@[i], b.body@[i])
}

/// Whether two items are like functions of one name, or are both type
/// declarations.
pub open spec fn alike_item(a: TyItem, b: TyItem) -> bool {
    match a.kind {
        TyItemKind::Fn(fun) => b.kind matches TyItemKind::Fn(other) && a.name.name@
            == b.name.name@ && alike_fn(*fun, *other),
        _ => !(b.kind is Fn),
    }
}

/// Whether two programs have like items, one for one.
pub open spec fn alike_program(a: Seq<TyItem>, b: Seq<TyItem>) -> bool {
    &&& a.len() == b.len()
    &&& forall|i: int| 0 <= i < a.len() ==> alike_item(#[trigger] a[i], b[i])
}

/// Like parameter lists have the same machine parameters and the same
/// names, and a name finds the same parameter in both.
pub proof fn lemma_alike_params(a: Seq<TyFnParam>, b: Seq<TyFnParam>, name: Seq<char>)
    requires
        alike_params(a, b),
    ensures
        lower_params(a) == lower_params(b),
        param_names(a) == param_names(b),
        find_param(a, name) == find_param(b, name),
{
    assert forall|i: int| 0 <= i < a.len() implies machine_type_of(#[trigger] a[i].ty)
        == machine_type_of(b[i].ty) by {
        assert(alike_type(a[i].ty, b[i].ty));
    }
    assert forall|i: int| is_first_unmapped(a, i) <==> is_first_unmapped(b, i) by {
        if is_first_unmapped(a, i) {
            assert forall|j: int| 0 <= j < i implies machine_type_of(#[trigger] b[j].ty) is Ok by {
                assert(machine_type_of(a[j].ty) is Ok);
            }
        }
        if is_first_unmapped(b, i) {
            assert forall|j: int| 0 <= j < i implies machine_type_of(#[trigger] a[j].ty) is Ok by {
                assert(machine_type_of(b[j].ty) is Ok);
            }
        }
    }
    if exists|i: int| is_first_unmapped(a, i) {
        let i = choose|i: int| is_first_unmapped(a, i);
        let j = choose|j: int| is_first_unmapped(b, j);
        assert(is_first_unmapped(b, i));
        assert(is_first_unmapped(a, j));
        assert(i == j);
    } else {
        assert(Seq::new(a.len(), |i: int| machine_type_of(a[i].ty)->Ok_0) =~= Seq::new(
            b.len(),
            |i: int| machine_type_of(b[i].ty)->Ok_0,
        ));
    }
    assert(param_names(a) =~= param_names(b));
    assert forall|i: int| is_first_param(a, name, i) <==> is_first_param(b, name, i) by {
        if is_first_param(a, name, i) {
            assert forall|j: int| 0 <= j < i implies (#[trigger] b[j]).name.name@ != name by {
                assert(a[j].name.name@ != name);
            }
        }
        if is_first_param(b, name, i) {
            assert forall|j: int| 0 <= j < i implies (#[trigger] a[j]).name.name@ != name by {
                assert(b[j].name.name@ != name);
            }
            assert(a[i].name.name@ == b[i].name.name@);
        }
    }
    if exists|i: int| is_first_param(a, name, i) {
        let i = choose|i: int| is_first_param(a, name, i);
        let j = choose|j: int| is_first_param(b, name, j);
        assert(is_first_param(b, name, i));
        assert(is_first_param(a, name, j));
        assert(i == j);
    }
}

/// Like arguments lower alike.
pub proof fn lemma_alike_arg(
    st: LoweringModel,
    params: Seq<TyFnParam>,
    other_params: Seq<TyFnParam>,
    a: TyExpr,
    b: TyExpr,
)
    requires
        alike_params(params, other_params),
        alike_expr(a, b),
    ensures
        lower_arg(st, params, a) == lower_arg(st, other_params, b),
    decreases a, 0nat,
{
    match a.kind {
        TyExprKind::Literal(_) => {},
        TyExprKind::Variable { name } => {
            lemma_alike_params(params, other_params, name.name@);
        },
        TyExprKind::Call { fun, args } => {
            let other_fun = b.kind->Call_fun;
            let other_args = b.kind->Call_args;
            lemma_alike_call(st, params, other_params, *fun, *other_fun, args@, other_args@);
        },
    }
}

/// Like argument lists lower alike.
pub proof fn lemma_alike_args(
    st: LoweringModel,
    params: Seq<TyFnParam>,
    other_params: Seq<TyFnParam>,
    args: Seq<TyExpr>,
    other_args: Seq<TyExpr>,
    count: nat,
)
    requires
        alike_params(params, other_params),
        args.len() == other_args.len(),
        forall|i: int| 0 <= i < args.len() ==> alike_expr(#[trigger] args[i], other_args[i]),
    ensures
        lower_args(st, params, args, count) == lower_args(st, other_params, other_args, count),
    decreases args, count,
{
    if 0 < count <= args.len() {
        lemma_alike_args(st, params, other_params, args, other_args, (count - 1) as nat);
        if let Ok((before, _)) = lower_args(st, params, args, (count - 1) as nat) {
            lemma_alike_arg(before, params, other_params, args[count - 1], other_args[count - 1]);
        }
    }
}

/// Calls of like callees with like arguments lower alike.
pub proof fn lemma_alike_call(
    st: LoweringModel,
    params: Seq<TyFnParam>,
    other_params: Seq<TyFnParam>,
    fun: TyExpr,
    other_fun: TyExpr,
    args: Seq<TyExpr>,
    other_args: Seq<TyExpr>,
)
    requires
        alike_params(params, other_params),
        alike_expr(fun, other_fun),
        args.len() == other_args.len(),
        forall|i: int| 0 <= i < args.len() ==> alike_expr(#[trigger] args[i], other_args[i]),
    ensures
        lower_call(st, params, fun, args) == lower_call(st, other_params, other_fun, other_args),
    decreases args, args.len() + 1,
{
    lemma_alike_args(st, params, other_params, args, other_args, args.len());
}

/// Like statement lists lower alike.
pub proof fn lemma_alike_stmts(
    st: LoweringModel,
    params: Seq<TyFnParam>,
    other_params: Seq<TyFnParam>,
    stmts: Seq<TyStmt>,
    other_stmts: Seq<TyStmt>,
)
    requires
        alike_params(params, other_params),
        stmts.len() == other_stmts.len(),
        forall|i: int| 0 <= i < stmts.len() ==> alike_stmt(#[trigger] stmts[i], other_stmts[i]),
    ensures
        lower_stmts(st, params, stmts) == lower_stmts(st, other_params, other_stmts),
    decreases stmts.len(),
{
    if stmts.len() > 0 {
        lemma_alike_stmts(st, params, other_params, stmts.drop_last(), other_stmts.drop_last());
        if let Ok(before) = lower_stmts(st, params, stmts.drop_last()) {
            assert(alike_stmt(stmts.last(), other_stmts.last()));
            if let TyStmtKind::Expr(expr) = stmts.last().kind {
                let other = other_stmts.last().kind->Expr_0;
                match expr.kind {
                    TyExprKind::Call { fun, args } => {
                        lemma_alike_call(
                            before,
                            params,
                            other_params,
                            *fun,
                            *other.kind->Call_fun,
                            args@,
                            other.kind->Call_args@,
                        );
                    },
                    _ => {
                        lemma_alike_arg(before, params, other_params, expr, other);
                    },
                }
            }
        }
    }
}

/// Like programs lower alike: they give the same module, or fail with the
/// same failure.
pub proof fn lemma_alike_items(module: ModuleModel, items: Seq<TyItem>, other_items: Seq<TyItem>)
    requires
        alike_program(items, other_items),
    ensures
        lower_items(module, items) == lower_items(module, other_items),
    decreases items.len(),
{
    if items.len() > 0 {
        let item = items.last();
        let other = other_items.last();
        assert(alike_item(item, other));
        if let TyItemKind::Fn(fun) = item.kind {
            let other_fun = other.kind->Fn_0;
            lemma_alike_params(
                ty_params(fun.params),
                ty_params(other_fun.params),
                Seq::empty(),
            );
            if let Ok(machine_params) = lower_params(ty_params(fun.params)) {
                let start = LoweringModel {
                    module: ModuleModel {
                        functions: module.functions.push(
                            declaration(item.name.name@, ty_params(fun.params), machine_params),
                        ),
                        globals: module.globals,
                    },
                    body: Seq::empty(),
                };
                lemma_alike_stmts(
                    start,
                    ty_params(fun.params),
                    ty_params(other_fun.params),
                    fun.body@,
                    other_fun.body@,
                );
            }
        }
        if let Ok(next) = lower_item(module, item) {
            lemma_alike_items(next, items.drop_last(), other_items.drop_last());
        }
    }
}

/// Compiling is a function of what the program says: like programs compile
/// to the same module, or fail with the same failure.
pub proof fn lemma_lower_program_deterministic(items: Seq<TyItem>, other_items: Seq<TyItem>)
    requires
        alike_program(items, other_items),
    ensures
        lower_program(items) == lower_program(other_items),
{
    lemma_alike_items(prelude_model(), items, other_items);
}

} // verus!
