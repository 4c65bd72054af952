//! What holds of the propagator whatever it is run on.

use vstd::prelude::*;
use crate::node::{CallView, ExprView, PatView, StmtView, VarDeclaratorView};
use crate::propagate::{
    display_name_prop, has_display_name, lacks_display_name, names_display_name,
    propagate, propagate_call, propagate_declarator, propagate_declarators, propagate_exprs,
    propagate_opt, propagate_pat, propagate_pats, propagate_stmt, propagate_stmts,
    with_display_name,
};

verus! {

/// Without a candidate the propagator changes nothing.
pub proof fn law_no_candidate(e: ExprView)
    ensures
        propagate(e, None) == e,
    decreases e,
{
    match e {
        ExprView::Call(c) => {
            lemma_no_candidate_call(c);
        },
        ExprView::Member { object, property, .. } => {
            law_no_candidate(*object);
            law_no_candidate(*property);
        },
        ExprView::Assign { target, value, .. } => {
            lemma_no_candidate_pat(*target);
            law_no_candidate(*value);
        },
        ExprView::Function { params, body } => {
            lemma_no_candidate_pats(params);
            lemma_no_candidate_stmts(body);
        },
        _ => {},
    }
}

pub proof fn lemma_no_candidate_call(c: CallView)
    ensures
        propagate_call(c, None) == c,
    decreases c,
{
    law_no_candidate(*c.callee);
    lemma_no_candidate_exprs(c.args);
}

pub proof fn lemma_no_candidate_exprs(es: Seq<ExprView>)
    ensures
        propagate_exprs(es, None) == es,
    decreases es,
{
    assert forall|i: int| 0 <= i < es.len() implies propagate(es[i], None) == es[i] by {
        law_no_candidate(es[i]);
    }
    assert(propagate_exprs(es, None) =~= es);
}

pub proof fn lemma_no_candidate_pat(p: PatView)
    ensures
        propagate_pat(p, None) == p,
    decreases p,
{
    match p {
        PatView::Ident(_) => {},
        PatView::Array(ps) => {
            lemma_no_candidate_pats(ps);
        },
        PatView::Expr(e) => {
            law_no_candidate(*e);
        },
    }
}

pub proof fn lemma_no_candidate_pats(ps: Seq<PatView>)
    ensures
        propagate_pats(ps, None) == ps,
    decreases ps,
{
    assert forall|i: int| 0 <= i < ps.len() implies propagate_pat(ps[i], None) == ps[i] by {
        lemma_no_candidate_pat(ps[i]);
    }
    assert(propagate_pats(ps, None) =~= ps);
}

pub proof fn lemma_no_candidate_opt(o: Option<ExprView>)
    ensures
        propagate_opt(o, None) == o,
    decreases o,
{
    match o {
        Some(e) => {
            law_no_candidate(e);
        },
        None => {},
    }
}

pub proof fn lemma_no_candidate_declarator(d: VarDeclaratorView)
    ensures
        propagate_declarator(d, None) == d,
    decreases d,
{
    lemma_no_candidate_pat(d.name);
    lemma_no_candidate_opt(d.init);
}

pub proof fn lemma_no_candidate_declarators(ds: Seq<VarDeclaratorView>)
    ensures
        propagate_declarators(ds, None) == ds,
    decreases ds,
{
    assert forall|i: int| 0 <= i < ds.len() implies propagate_declarator(ds[i], None)
        == ds[i] by {
        lemma_no_candidate_declarator(ds[i]);
    }
    assert(propagate_declarators(ds, None) =~= ds);
}

pub proof fn lemma_no_candidate_stmt(s: StmtView)
    ensures
        propagate_stmt(s, None) == s,
    decreases s,
{
    match s {
        StmtView::Var(ds) => {
            lemma_no_candidate_declarators(ds);
        },
        StmtView::Expr(e) => {
            law_no_candidate(e);
        },
        StmtView::Return(o) => {
            lemma_no_candidate_opt(o);
        },
    }
}

pub proof fn lemma_no_candidate_stmts(ss: Seq<StmtView>)
    ensures
        propagate_stmts(ss, None) == ss,
    decreases ss,
{
    assert forall|i: int| 0 <= i < ss.len() implies propagate_stmt(ss[i], None) == ss[i] by {
        lemma_no_candidate_stmt(ss[i]);
    }
    assert(propagate_stmts(ss, None) =~= ss);
}

/// A candidate does not cross into an array or object literal: the
/// propagator hands such a literal back as it is, contents included.
pub proof fn law_stops_at_literals(e: ExprView, candidate: Option<ExprView>)
    requires
        e is Array || e is Object,
    ensures
        propagate(e, candidate) == e,
{
}

/// A call that was given a name has one.
pub proof fn lemma_named_call_has_name(c: CallView, name: ExprView)
    ensures
        !lacks_display_name(with_display_name(c, name)),
{
    if lacks_display_name(c) {
        let ps = c.args[0]->Object_0;
        let qs = ps.push(display_name_prop(name));
        assert(names_display_name(qs[ps.len() as int]));
        assert(has_display_name(qs));
    }
}

/// A name is added at most once: a call that has been given a name takes
/// no second one.
pub proof fn law_named_once(c: CallView, first: ExprView, second: ExprView)
    ensures
        with_display_name(with_display_name(c, first), second) == with_display_name(c, first),
{
    lemma_named_call_has_name(c, first);
}

/// Once the propagator has run with a candidate, a further run changes
/// nothing, whatever candidate it carries: each component that it can
/// reach has a name by then.
pub proof fn law_second_run(e: ExprView, first: ExprView, second: Option<ExprView>)
    ensures
        propagate(propagate(e, Some(first)), second) == propagate(e, Some(first)),
    decreases e,
{
    match e {
        ExprView::Call(c) => {
            lemma_second_run_call(c, first, second);
        },
        ExprView::Member { object, property, .. } => {
            law_second_run(*object, first, second);
            law_second_run(*property, first, second);
        },
        ExprView::Assign { target, value, .. } => {
            lemma_second_run_pat(*target, first, second);
            law_second_run(*value, first, second);
        },
        ExprView::Function { params, body } => {
            lemma_second_run_pats(params, first, second);
            lemma_second_run_stmts(body, first, second);
        },
        _ => {},
    }
}

pub proof fn lemma_second_run_call(c: CallView, first: ExprView, second: Option<ExprView>)
    ensures
        propagate_call(propagate_call(c, Some(first)), second) == propagate_call(c, Some(first)),
    decreases c,
{
    let inner = CallView {
        callee: Box::new(propagate(*c.callee, Some(first))),
        args: propagate_exprs(c.args, Some(first)),
    };
    let once = propagate_call(c, Some(first));
    law_second_run(*c.callee, first, second);
    assert(once.callee == inner.callee);
    assert(once.args.len() == c.args.len());
    assert forall|i: int| 0 <= i < once.args.len() implies propagate(once.args[i], second)
        == once.args[i] by {
        if once.args[i] == inner.args[i] {
            law_second_run(c.args[i], first, second);
        }
    }
    assert(propagate_exprs(once.args, second) =~= once.args);
    lemma_named_call_has_name(inner, first);
}

pub proof fn lemma_second_run_pat(p: PatView, first: ExprView, second: Option<ExprView>)
    ensures
        propagate_pat(propagate_pat(p, Some(first)), second) == propagate_pat(p, Some(first)),
    decreases p,
{
    match p {
        PatView::Ident(_) => {},
        PatView::Array(ps) => {
            lemma_second_run_pats(ps, first, second);
        },
        PatView::Expr(e) => {
            law_second_run(*e, first, second);
        },
    }
}

pub proof fn lemma_second_run_pats(ps: Seq<PatView>, first: ExprView, second: Option<ExprView>)
    ensures
        propagate_pats(propagate_pats(ps, Some(first)), second) == propagate_pats(ps, Some(first)),
    decreases ps,
{
    assert forall|i: int| 0 <= i < ps.len() implies propagate_pat(
        propagate_pat(ps[i], Some(first)),
        second,
    ) == propagate_pat(ps[i], Some(first)) by {
        lemma_second_run_pat(ps[i], first, second);
    }
    assert(propagate_pats(propagate_pats(ps, Some(first)), second) =~= propagate_pats(
        ps,
        Some(first),
    ));
}

/// The same, for an initializer that may be absent.
pub proof fn lemma_second_run_opt(o: Option<ExprView>, first: ExprView, second: Option<ExprView>)
    ensures
        propagate_opt(propagate_opt(o, Some(first)), second) == propagate_opt(o, Some(first)),
    decreases o,
{
    match o {
        Some(e) => {
            law_second_run(e, first, second);
        },
        None => {},
    }
}

pub proof fn lemma_second_run_declarator(
    d: VarDeclaratorView,
    first: ExprView,
    second: Option<ExprView>,
)
    ensures
        propagate_declarator(propagate_declarator(d, Some(first)), second) == propagate_declarator(
            d,
            Some(first),
        ),
    decreases d,
{
    lemma_second_run_pat(d.name, first, second);
    lemma_second_run_opt(d.init, first, second);
}

pub proof fn lemma_second_run_declarators(
    ds: Seq<VarDeclaratorView>,
    first: ExprView,
    second: Option<ExprView>,
)
    ensures
        propagate_declarators(propagate_declarators(ds, Some(first)), second)
            == propagate_declarators(ds, Some(first)),
    decreases ds,
{
    assert forall|i: int| 0 <= i < ds.len() implies propagate_declarator(
        propagate_declarator(ds[i], Some(first)),
        second,
    ) == propagate_declarator(ds[i], Some(first)) by {
        lemma_second_run_declarator(ds[i], first, second);
    }
    assert(propagate_declarators(propagate_declarators(ds, Some(first)), second)
        =~= propagate_declarators(ds, Some(first)));
}

pub proof fn lemma_second_run_stmt(s: StmtView, first: ExprView, second: Option<ExprView>)
    ensures
        propagate_stmt(propagate_stmt(s, Some(first)), second) == propagate_stmt(s, Some(first)),
    decreases s,
{
    match s {
        StmtView::Var(ds) => {
            lemma_second_run_declarators(ds, first, second);
        },
        StmtView::Expr(e) => {
            law_second_run(e, first, second);
        },
        StmtView::Return(o) => {
            lemma_second_run_opt(o, first, second);
        },
    }
}

pub proof fn lemma_second_run_stmts(ss: Seq<StmtView>, first: ExprView, second: Option<ExprView>)
    ensures
        propagate_stmts(propagate_stmts(ss, Some(first)), second) == propagate_stmts(
            ss,
            Some(first),
        ),
    decreases ss,
{
    assert forall|i: int| 0 <= i < ss.len() implies propagate_stmt(
        propagate_stmt(ss[i], Some(first)),
        second,
    ) == propagate_stmt(ss[i], Some(first)) by {
        lemma_second_run_stmt(ss[i], first, second);
    }
    assert(propagate_stmts(propagate_stmts(ss, Some(first)), second) =~= propagate_stmts(
        ss,
        Some(first),
    ));
}

} // verus!
