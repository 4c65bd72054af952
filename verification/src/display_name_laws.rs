//! Running name synthesis twice gives what running it once gives.
//!
//! One family of inputs is left out. A computed property key is handed on
//! as a candidate unevaluated, so the key expression itself can end up as
//! the value of an added `displayName` property. On a second run that
//! property is a naming context of its own, and a component factory call
//! inside the copied key would then be named `"displayName"`. The law
//! holds wherever that cannot happen.

use vstd::prelude::*;
use crate::display_name::{
    default_export_name, key_candidate, named_call, named_declarator, named_declarators,
    named_expr, named_exprs, named_item, named_key, named_module, named_opt,
    named_pat, named_pats, named_prop, named_props, named_stmt, named_stmts, named_value,
    target_name,
};
use crate::node::{
    AssignOp, CallView, ExprView, ModuleItemView, ModuleView, PatView, PropNameView, PropView,
    StmtView, VarDeclaratorView,
};
use crate::propagate::{
    display_name_key, display_name_prop, propagate,
    propagate_call, propagate_declarator, propagate_declarators, propagate_exprs, propagate_opt,
    propagate_pat, propagate_pats, propagate_stmt, propagate_stmts, };
use crate::propagate_laws::{
    law_no_candidate, law_second_run, lemma_no_candidate_pat, lemma_no_candidate_pats,
    lemma_no_candidate_stmts, lemma_second_run_opt,
};

verus! {

/// The candidate that the key `displayName` gives.
pub open spec fn display_name_text() -> ExprView {
    ExprView::Str(display_name_key())
}

/// As the value of an added `displayName` property, `name` would come
/// through a further run unchanged.
pub open spec fn name_is_stable(name: ExprView) -> bool {
    propagate(named_expr(name), Some(display_name_text())) == name
}

pub open spec fn candidate_is_stable(candidate: Option<ExprView>) -> bool {
    candidate matches Some(name) ==> name_is_stable(name)
}

/// A property `[key]: value` settles in one run: either the run adds the
/// key expression nowhere in the value, or the key expression, once the
/// pass has run over it, holds no component that the candidate
/// `"displayName"` would still name.
pub open spec fn computed_key_settles(key: ExprView, value: ExprView) -> bool {
    ||| propagate(named_expr(value), Some(named_expr(key))) == named_expr(value)
    ||| propagate(named_expr(key), Some(display_name_text())) == named_expr(key)
}

pub open spec fn expr_settles(e: ExprView) -> bool
    decreases e,
{
    match e {
        ExprView::Ident(_) => true,
        ExprView::Str(_) => true,
        ExprView::Num(_) => true,
        ExprView::Array(es) => exprs_settle(es),
        ExprView::Object(ps) => props_settle(ps),
        ExprView::Call(c) => call_settles(c),
        ExprView::Member { object, property, .. } => expr_settles(*object) && expr_settles(
            *property,
        ),
        ExprView::Assign { target, value, .. } => pat_settles(*target) && expr_settles(*value),
        ExprView::Function { params, body } => pats_settle(params) && stmts_settle(body),
    }
}

pub open spec fn call_settles(c: CallView) -> bool
    decreases c,
{
    expr_settles(*c.callee) && exprs_settle(c.args)
}

pub open spec fn exprs_settle(es: Seq<ExprView>) -> bool
    decreases es,
{
    forall|i: int| 0 <= i < es.len() ==> expr_settles(#[trigger] es[i])
}

pub open spec fn key_settles(k: PropNameView) -> bool
    decreases k,
{
    match k {
        PropNameView::Computed(e) => expr_settles(*e),
        _ => true,
    }
}

pub open spec fn prop_settles(p: PropView) -> bool
    decreases p,
{
    match p {
        PropView::KeyValue { key, value } => key_settles(key) && expr_settles(value) && (
        key matches PropNameView::Computed(k) ==> computed_key_settles(*k, value)),
        PropView::Shorthand(_) => true,
        PropView::Method { key, params, body } => key_settles(key) && pats_settle(params)
            && stmts_settle(body),
        PropView::Getter { key, body } => key_settles(key) && stmts_settle(body),
        PropView::Setter { key, param, body } => key_settles(key) && pat_settles(param)
            && stmts_settle(body),
        PropView::Assign { .. } => true,
    }
}

pub open spec fn props_settle(ps: Seq<PropView>) -> bool
    decreases ps,
{
    forall|i: int| 0 <= i < ps.len() ==> prop_settles(#[trigger] ps[i])
}

pub open spec fn pat_settles(p: PatView) -> bool
    decreases p,
{
    match p {
        PatView::Ident(_) => true,
        PatView::Array(ps) => pats_settle(ps),
        PatView::Expr(e) => expr_settles(*e),
    }
}

pub open spec fn pats_settle(ps: Seq<PatView>) -> bool
    decreases ps,
{
    forall|i: int| 0 <= i < ps.len() ==> pat_settles(#[trigger] ps[i])
}

pub open spec fn opt_settles(o: Option<ExprView>) -> bool
    decreases o,
{
    match o {
        Some(e) => expr_settles(e),
        None => true,
    }
}

pub open spec fn declarator_settles(d: VarDeclaratorView) -> bool
    decreases d,
{
    pat_settles(d.name) && opt_settles(d.init)
}

pub open spec fn declarators_settle(ds: Seq<VarDeclaratorView>) -> bool
    decreases ds,
{
    forall|i: int| 0 <= i < ds.len() ==> declarator_settles(#[trigger] ds[i])
}

pub open spec fn stmt_settles(s: StmtView) -> bool
    decreases s,
{
    match s {
        StmtView::Var(ds) => declarators_settle(ds),
        StmtView::Expr(e) => expr_settles(e),
        StmtView::Return(o) => opt_settles(o),
    }
}

pub open spec fn stmts_settle(ss: Seq<StmtView>) -> bool
    decreases ss,
{
    forall|i: int| 0 <= i < ss.len() ==> stmt_settles(#[trigger] ss[i])
}

pub open spec fn item_settles(it: ModuleItemView) -> bool {
    match it {
        ModuleItemView::ExportDefaultExpr(e) => expr_settles(e),
        ModuleItemView::Stmt(s) => stmt_settles(s),
        _ => true,
    }
}

/// Every property with a computed key, anywhere in the module, settles in
/// one run.
pub open spec fn module_settles(m: ModuleView) -> bool {
    forall|i: int| 0 <= i < m.body.len() ==> item_settles(#[trigger] m.body[i])
}

/// The propagator leaves the name that a target gives as it is.
proof fn lemma_target_name_kept(p: PatView, candidate: Option<ExprView>)
    ensures
        target_name(propagate_pat(p, candidate)) == target_name(p),
        p is Ident <==> propagate_pat(p, candidate) is Ident,
{
    match p {
        PatView::Expr(e) => match *e {
            ExprView::Member { object, property, computed } => {
                let after = propagate(*e, candidate);
                assert(after->Member_property == Box::new(propagate(*property, candidate)));
                assert(*property is Ident <==> propagate(*property, candidate) is Ident);
            },
            _ => {},
        },
        _ => {},
    }
}

/// The added property comes through a run unchanged when the name is stable.
proof fn lemma_added_prop(name: ExprView)
    requires
        name_is_stable(name),
    ensures
        named_prop(display_name_prop(name)) == display_name_prop(name),
{
}

/// After the pass and then the propagator, with a stable candidate, have
/// gone over an expression, the pass finds nothing more to do.
proof fn lemma_rerun_expr(x: ExprView, candidate: Option<ExprView>)
    requires
        expr_settles(x),
        candidate_is_stable(candidate),
    ensures
        named_expr(propagate(named_expr(x), candidate)) == propagate(named_expr(x), candidate),
    decreases x,
{
    match x {
        ExprView::Ident(_) => {},
        ExprView::Str(_) => {},
        ExprView::Num(_) => {},
        ExprView::Array(es) => {
            lemma_rerun_exprs(es, None);
            lemma_no_candidate_exprs_named(es);
        },
        ExprView::Object(ps) => {
            lemma_rerun_props(ps);
        },
        ExprView::Call(c) => {
            lemma_rerun_call(c, candidate);
        },
        ExprView::Member { object, property, .. } => {
            lemma_rerun_expr(*object, candidate);
            lemma_rerun_expr(*property, candidate);
        },
        ExprView::Assign { op, target, value } => {
            lemma_rerun_pat(*target, candidate);
            let t1 = named_pat(*target);
            let t2 = propagate_pat(t1, candidate);
            lemma_target_name_kept(t1, candidate);
            let v0 = named_expr(*value);
            match target_name(t1) {
                Some(name) => {
                    if op == AssignOp::Assign {
                        let given = ExprView::Str(name);
                        let v1 = propagate(v0, Some(given));
                        assert(named_value(op, t1, v0) == v1);
                        law_second_run(*value, given, candidate);
                        law_second_run(v0, given, candidate);
                        lemma_rerun_expr(*value, Some(given));
                        law_second_run(v0, given, Some(given));
                        assert(propagate(v1, candidate) == v1);
                        assert(named_expr(v1) == v1);
                        assert(named_value(op, t2, named_expr(v1)) == v1);
                    } else {
                        lemma_rerun_expr(*value, candidate);
                    }
                },
                None => {
                    lemma_rerun_expr(*value, candidate);
                },
            }
        },
        ExprView::Function { params, body } => {
            lemma_rerun_pats(params, candidate);
            lemma_rerun_stmts(body, candidate);
        },
    }
}

proof fn lemma_no_candidate_exprs_named(es: Seq<ExprView>)
    ensures
        propagate_exprs(named_exprs(es), None) == named_exprs(es),
{
    crate::propagate_laws::lemma_no_candidate_exprs(named_exprs(es));
}

proof fn lemma_rerun_call(c: CallView, candidate: Option<ExprView>)
    requires
        call_settles(c),
        candidate_is_stable(candidate),
    ensures
        named_call(propagate_call(named_call(c), candidate)) == propagate_call(
            named_call(c),
            candidate,
        ),
    decreases c,
{
    let y = named_call(c);
    let inner = CallView {
        callee: Box::new(propagate(*y.callee, candidate)),
        args: propagate_exprs(y.args, candidate),
    };
    let r = propagate_call(y, candidate);
    lemma_rerun_expr(*c.callee, candidate);
    assert(named_expr(*inner.callee) == *inner.callee);
    assert forall|i: int| 0 <= i < inner.args.len() implies named_expr(#[trigger] inner.args[i])
        == inner.args[i] by {
        assert(expr_settles(c.args[i]));
        lemma_rerun_expr(c.args[i], candidate);
    }
    assert(r.callee == inner.callee);
    assert(r.args.len() == inner.args.len());
    assert forall|i: int| 0 <= i < r.args.len() implies named_expr(#[trigger] r.args[i])
        == r.args[i] by {
        if r.args[i] != inner.args[i] {
            let name = candidate->0;
            let ps = inner.args[0]->Object_0;
            let qs = ps.push(display_name_prop(name));
            assert(i == 0);
            assert(r.args[0] == ExprView::Object(qs));
            assert(named_expr(inner.args[0]) == inner.args[0]);
            assert(named_props(ps) == ps);
            lemma_added_prop(name);
            assert forall|j: int| 0 <= j < qs.len() implies named_prop(qs[j]) == qs[j] by {
                if j < ps.len() {
                    assert(named_props(ps)[j] == named_prop(ps[j]));
                }
            }
            assert(named_props(qs) =~= qs);
        }
    }
    assert(named_exprs(r.args) =~= r.args);
}

proof fn lemma_rerun_exprs(es: Seq<ExprView>, candidate: Option<ExprView>)
    requires
        exprs_settle(es),
        candidate_is_stable(candidate),
    ensures
        named_exprs(propagate_exprs(named_exprs(es), candidate)) == propagate_exprs(
            named_exprs(es),
            candidate,
        ),
    decreases es,
{
    let done = propagate_exprs(named_exprs(es), candidate);
    assert forall|i: int| 0 <= i < es.len() implies named_expr(done[i]) == done[i] by {
        assert(expr_settles(es[i]));
        lemma_rerun_expr(es[i], candidate);
    }
    assert(named_exprs(done) =~= done);
}

proof fn lemma_rerun_key(k: PropNameView)
    requires
        key_settles(k),
    ensures
        named_key(named_key(k)) == named_key(k),
    decreases k,
{
    match k {
        PropNameView::Computed(e) => {
            lemma_rerun_expr(*e, None);
            law_no_candidate(named_expr(*e));
        },
        _ => {},
    }
}

proof fn lemma_rerun_prop(p: PropView)
    requires
        prop_settles(p),
    ensures
        named_prop(named_prop(p)) == named_prop(p),
    decreases p,
{
    match p {
        PropView::KeyValue { key, value } => {
            lemma_rerun_key(key);
            let k1 = named_key(key);
            let given = key_candidate(k1);
            let v0 = named_expr(value);
            let v1 = propagate(v0, Some(given));
            if v1 == v0 {
                lemma_rerun_expr(value, None);
                law_no_candidate(v0);
            } else {
                match key {
                    PropNameView::Computed(k) => {
                        lemma_rerun_expr(*k, None);
                        law_no_candidate(named_expr(*k));
                        assert(name_is_stable(given));
                    },
                    _ => {},
                }
                lemma_rerun_expr(value, Some(given));
            }
            assert(named_expr(v1) == v1);
            law_second_run(v0, given, Some(given));
        },
        PropView::Shorthand(_) => {},
        PropView::Method { key, params, body } => {
            lemma_rerun_key(key);
            lemma_rerun_pats(params, None);
            lemma_no_candidate_pats(named_pats(params));
            lemma_rerun_stmts(body, None);
            lemma_no_candidate_stmts(named_stmts(body));
        },
        PropView::Getter { key, body } => {
            lemma_rerun_key(key);
            lemma_rerun_stmts(body, None);
            lemma_no_candidate_stmts(named_stmts(body));
        },
        PropView::Setter { key, param, body } => {
            lemma_rerun_key(key);
            lemma_rerun_pat(param, None);
            lemma_no_candidate_pat(named_pat(param));
            lemma_rerun_stmts(body, None);
            lemma_no_candidate_stmts(named_stmts(body));
        },
        PropView::Assign { .. } => {},
    }
}

proof fn lemma_rerun_props(ps: Seq<PropView>)
    requires
        props_settle(ps),
    ensures
        named_props(named_props(ps)) == named_props(ps),
    decreases ps,
{
    assert forall|i: int| 0 <= i < ps.len() implies named_prop(named_props(ps)[i]) == named_props(
        ps,
    )[i] by {
        assert(prop_settles(ps[i]));
        lemma_rerun_prop(ps[i]);
    }
    assert(named_props(named_props(ps)) =~= named_props(ps));
}

proof fn lemma_rerun_pat(p: PatView, candidate: Option<ExprView>)
    requires
        pat_settles(p),
        candidate_is_stable(candidate),
    ensures
        named_pat(propagate_pat(named_pat(p), candidate)) == propagate_pat(named_pat(p), candidate),
    decreases p,
{
    match p {
        PatView::Ident(_) => {},
        PatView::Array(ps) => {
            lemma_rerun_pats(ps, candidate);
        },
        PatView::Expr(e) => {
            lemma_rerun_expr(*e, candidate);
        },
    }
}

proof fn lemma_rerun_pats(ps: Seq<PatView>, candidate: Option<ExprView>)
    requires
        pats_settle(ps),
        candidate_is_stable(candidate),
    ensures
        named_pats(propagate_pats(named_pats(ps), candidate)) == propagate_pats(
            named_pats(ps),
            candidate,
        ),
    decreases ps,
{
    let done = propagate_pats(named_pats(ps), candidate);
    assert forall|i: int| 0 <= i < ps.len() implies named_pat(done[i]) == done[i] by {
        assert(pat_settles(ps[i]));
        lemma_rerun_pat(ps[i], candidate);
    }
    assert(named_pats(done) =~= done);
}

proof fn lemma_rerun_opt(o: Option<ExprView>, candidate: Option<ExprView>)
    requires
        opt_settles(o),
        candidate_is_stable(candidate),
    ensures
        named_opt(propagate_opt(named_opt(o), candidate)) == propagate_opt(named_opt(o), candidate),
    decreases o,
{
    match o {
        Some(e) => {
            lemma_rerun_expr(e, candidate);
        },
        None => {},
    }
}

proof fn lemma_rerun_declarator(d: VarDeclaratorView, candidate: Option<ExprView>)
    requires
        declarator_settles(d),
        candidate_is_stable(candidate),
    ensures
        named_declarator(propagate_declarator(named_declarator(d), candidate))
            == propagate_declarator(named_declarator(d), candidate),
    decreases d,
{
    lemma_rerun_pat(d.name, candidate);
    let n1 = named_pat(d.name);
    lemma_target_name_kept(n1, candidate);
    let i0 = named_opt(d.init);
    match n1 {
        PatView::Ident(text) => {
            let given = ExprView::Str(text);
            let i1 = propagate_opt(i0, Some(given));
            lemma_second_run_opt(i0, given, candidate);
            lemma_rerun_opt(d.init, Some(given));
            lemma_second_run_opt(i0, given, Some(given));
        },
        _ => {
            lemma_rerun_opt(d.init, candidate);
        },
    }
}

proof fn lemma_rerun_declarators(ds: Seq<VarDeclaratorView>, candidate: Option<ExprView>)
    requires
        declarators_settle(ds),
        candidate_is_stable(candidate),
    ensures
        named_declarators(propagate_declarators(named_declarators(ds), candidate))
            == propagate_declarators(named_declarators(ds), candidate),
    decreases ds,
{
    let done = propagate_declarators(named_declarators(ds), candidate);
    assert forall|i: int| 0 <= i < ds.len() implies named_declarator(done[i]) == done[i] by {
        assert(declarator_settles(ds[i]));
        lemma_rerun_declarator(ds[i], candidate);
    }
    assert(named_declarators(done) =~= done);
}

proof fn lemma_rerun_stmt(s: StmtView, candidate: Option<ExprView>)
    requires
        stmt_settles(s),
        candidate_is_stable(candidate),
    ensures
        named_stmt(propagate_stmt(named_stmt(s), candidate)) == propagate_stmt(
            named_stmt(s),
            candidate,
        ),
    decreases s,
{
    match s {
        StmtView::Var(ds) => {
            lemma_rerun_declarators(ds, candidate);
        },
        StmtView::Expr(e) => {
            lemma_rerun_expr(e, candidate);
        },
        StmtView::Return(o) => {
            lemma_rerun_opt(o, candidate);
        },
    }
}

proof fn lemma_rerun_stmts(ss: Seq<StmtView>, candidate: Option<ExprView>)
    requires
        stmts_settle(ss),
        candidate_is_stable(candidate),
    ensures
        named_stmts(propagate_stmts(named_stmts(ss), candidate)) == propagate_stmts(
            named_stmts(ss),
            candidate,
        ),
    decreases ss,
{
    let done = propagate_stmts(named_stmts(ss), candidate);
    assert forall|i: int| 0 <= i < ss.len() implies named_stmt(done[i]) == done[i] by {
        assert(stmt_settles(ss[i]));
        lemma_rerun_stmt(ss[i], candidate);
    }
    assert(named_stmts(done) =~= done);
}

/// A second run over an expression changes nothing.
pub proof fn law_idempotent_expr(e: ExprView)
    requires
        expr_settles(e),
    ensures
        named_expr(named_expr(e)) == named_expr(e),
{
    lemma_rerun_expr(e, None);
    law_no_candidate(named_expr(e));
}

/// A second run over an item changes nothing.
pub proof fn law_idempotent_item(it: ModuleItemView)
    requires
        item_settles(it),
    ensures
        named_item(named_item(it)) == named_item(it),
{
    match it {
        ModuleItemView::ExportDefaultExpr(e) => {
            let given = ExprView::Str(default_export_name());
            lemma_rerun_expr(e, Some(given));
            law_second_run(named_expr(e), given, Some(given));
        },
        ModuleItemView::Stmt(s) => {
            lemma_rerun_stmt(s, None);
            crate::propagate_laws::lemma_no_candidate_stmt(named_stmt(s));
        },
        _ => {},
    }
}

/// Name synthesis is idempotent: a second run over a module changes
/// nothing, since every name that the first run added is found by the
/// second.
pub proof fn law_idempotent(m: ModuleView)
    requires
        module_settles(m),
    ensures
        named_module(named_module(m)) == named_module(m),
{
    let once = named_module(m);
    assert forall|i: int| 0 <= i < m.body.len() implies named_item(once.body[i])
        == once.body[i] by {
        assert(item_settles(m.body[i]));
        law_idempotent_item(m.body[i]);
    }
    assert(named_module(once).body =~= once.body);
}

} // verus!
