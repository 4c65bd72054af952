//! What the grammar grants of an expression tree: `key = value` between
//! braces belongs to binding patterns, so no object literal holds one.

use vstd::prelude::*;
use crate::node::{
    CallExpr, CallView, Expr, ExprView, Module, ModuleItem, ModuleItemView, ModuleView, Pat,
    PatView, Prop, PropName, PropNameView, PropView, Stmt, StmtView, VarDeclarator,
    VarDeclaratorView,
};

verus! {

/// No object literal in the expression, however deep, holds a `key = value`
/// property.
pub open spec fn expr_is_legal(e: ExprView) -> bool
    decreases e,
{
    match e {
        ExprView::Ident(_) => true,
        ExprView::Str(_) => true,
        ExprView::Num(_) => true,
        ExprView::Array(es) => exprs_are_legal(es),
        ExprView::Object(ps) => props_are_legal(ps),
        ExprView::Call(c) => call_is_legal(c),
        ExprView::Member { object, property, .. } => expr_is_legal(*object) && expr_is_legal(
            *property,
        ),
        ExprView::Assign { target, value, .. } => pat_is_legal(*target) && expr_is_legal(*value),
        ExprView::Function { params, body } => pats_are_legal(params) && stmts_are_legal(body),
    }
}

pub open spec fn call_is_legal(c: CallView) -> bool
    decreases c,
{
    expr_is_legal(*c.callee) && exprs_are_legal(c.args)
}

pub open spec fn exprs_are_legal(es: Seq<ExprView>) -> bool
    decreases es,
{
    forall|i: int| 0 <= i < es.len() ==> expr_is_legal(#[trigger] es[i])
}

pub open spec fn prop_name_is_legal(k: PropNameView) -> bool
    decreases k,
{
    match k {
        PropNameView::Computed(e) => expr_is_legal(*e),
        _ => true,
    }
}

pub open spec fn prop_is_legal(p: PropView) -> bool
    decreases p,
{
    match p {
        PropView::KeyValue { key, value } => prop_name_is_legal(key) && expr_is_legal(value),
        PropView::Shorthand(_) => true,
        PropView::Method { key, params, body } => prop_name_is_legal(key) && pats_are_legal(
            params,
        ) && stmts_are_legal(body),
        PropView::Getter { key, body } => prop_name_is_legal(key) && stmts_are_legal(body),
        PropView::Setter { key, param, body } => prop_name_is_legal(key) && pat_is_legal(param)
            && stmts_are_legal(body),
        PropView::Assign { .. } => false,
    }
}

pub open spec fn props_are_legal(ps: Seq<PropView>) -> bool
    decreases ps,
{
    forall|i: int| 0 <= i < ps.len() ==> prop_is_legal(#[trigger] ps[i])
}

pub open spec fn pat_is_legal(p: PatView) -> bool
    decreases p,
{
    match p {
        PatView::Ident(_) => true,
        PatView::Array(ps) => pats_are_legal(ps),
        PatView::Expr(e) => expr_is_legal(*e),
    }
}

pub open spec fn pats_are_legal(ps: Seq<PatView>) -> bool
    decreases ps,
{
    forall|i: int| 0 <= i < ps.len() ==> pat_is_legal(#[trigger] ps[i])
}

pub open spec fn opt_expr_is_legal(o: Option<ExprView>) -> bool
    decreases o,
{
    match o {
        Some(e) => expr_is_legal(e),
        None => true,
    }
}

pub open spec fn declarator_is_legal(d: VarDeclaratorView) -> bool
    decreases d,
{
    pat_is_legal(d.name) && opt_expr_is_legal(d.init)
}

pub open spec fn declarators_are_legal(ds: Seq<VarDeclaratorView>) -> bool
    decreases ds,
{
    forall|i: int| 0 <= i < ds.len() ==> declarator_is_legal(#[trigger] ds[i])
}

pub open spec fn stmt_is_legal(s: StmtView) -> bool
    decreases s,
{
    match s {
        StmtView::Var(ds) => declarators_are_legal(ds),
        StmtView::Expr(e) => expr_is_legal(e),
        StmtView::Return(o) => opt_expr_is_legal(o),
    }
}

pub open spec fn stmts_are_legal(ss: Seq<StmtView>) -> bool
    decreases ss,
{
    forall|i: int| 0 <= i < ss.len() ==> stmt_is_legal(#[trigger] ss[i])
}

pub open spec fn item_is_legal(it: ModuleItemView) -> bool {
    match it {
        ModuleItemView::ExportDefaultExpr(e) => expr_is_legal(e),
        ModuleItemView::Stmt(s) => stmt_is_legal(s),
        _ => true,
    }
}

/// Every expression of the module is one that the grammar allows.
pub open spec fn module_is_legal(m: ModuleView) -> bool {
    forall|i: int| 0 <= i < m.body.len() ==> item_is_legal(#[trigger] m.body[i])
}

impl Expr {
    /// Whether the grammar allows the expression.
    pub fn is_legal(&self) -> (r: bool)
        ensures
            r == expr_is_legal(self@),
        decreases *self,
    {
        match self {
            Expr::Ident(_) => true,
            Expr::Str(_) => true,
            Expr::Num(_) => true,
            Expr::Array(es) => exprs_legal(es),
            Expr::Object(ps) => props_legal(ps),
            Expr::Call(c) => c.is_legal(),
            Expr::Member { object, property, .. } => object.is_legal() && property.is_legal(),
            Expr::Assign { target, value, .. } => target.is_legal() && value.is_legal(),
            Expr::Function { params, body } => pats_legal(params) && stmts_legal(body),
        }
    }
}

impl CallExpr {
    pub fn is_legal(&self) -> (r: bool)
        ensures
            r == call_is_legal(self@),
        decreases *self,
    {
        self.callee.is_legal() && exprs_legal(&self.args)
    }
}

fn exprs_legal(es: &Vec<Expr>) -> (r: bool)
    ensures
        r == exprs_are_legal(crate::node::exprs_view(es@)),
    decreases *es,
{
    let mut i: usize = 0;
    while i < es.len()
        invariant
            i <= es.len(),
            forall|j: int| 0 <= j < i ==> expr_is_legal(#[trigger] es[j]@),
        decreases es.len() - i,
    {
        if !es[i].is_legal() {
            assert(!expr_is_legal(crate::node::exprs_view(es@)[i as int]));
            return false;
        }
        i += 1;
    }
    assert forall|j: int| 0 <= j < es.len() implies expr_is_legal(
        #[trigger] crate::node::exprs_view(es@)[j],
    ) by {
        assert(expr_is_legal(es[j]@));
    }
    true
}

impl PropName {
    pub fn is_legal(&self) -> (r: bool)
        ensures
            r == prop_name_is_legal(self@),
        decreases *self,
    {
        match self {
            PropName::Computed(e) => e.is_legal(),
            _ => true,
        }
    }
}

impl Prop {
    pub fn is_legal(&self) -> (r: bool)
        ensures
            r == prop_is_legal(self@),
        decreases *self,
    {
        match self {
            Prop::KeyValue { key, value } => key.is_legal() && value.is_legal(),
            Prop::Shorthand(_) => true,
            Prop::Method { key, params, body } => key.is_legal() && pats_legal(params)
                && stmts_legal(body),
            Prop::Getter { key, body } => key.is_legal() && stmts_legal(body),
            Prop::Setter { key, param, body } => key.is_legal() && param.is_legal() && stmts_legal(
                body,
            ),
            Prop::Assign { .. } => false,
        }
    }
}

fn props_legal(ps: &Vec<Prop>) -> (r: bool)
    ensures
        r == props_are_legal(crate::node::props_view(ps@)),
    decreases *ps,
{
    let mut i: usize = 0;
    while i < ps.len()
        invariant
            i <= ps.len(),
            forall|j: int| 0 <= j < i ==> prop_is_legal(#[trigger] ps[j]@),
        decreases ps.len() - i,
    {
        if !ps[i].is_legal() {
            assert(!prop_is_legal(crate::node::props_view(ps@)[i as int]));
            return false;
        }
        i += 1;
    }
    assert forall|j: int| 0 <= j < ps.len() implies prop_is_legal(
        #[trigger] crate::node::props_view(ps@)[j],
    ) by {
        assert(prop_is_legal(ps[j]@));
    }
    true
}

impl Pat {
    pub fn is_legal(&self) -> (r: bool)
        ensures
            r == pat_is_legal(self@),
        decreases *self,
    {
        match self {
            Pat::Ident(_) => true,
            Pat::Array(ps) => pats_legal(ps),
            Pat::Expr(e) => e.is_legal(),
        }
    }
}

fn pats_legal(ps: &Vec<Pat>) -> (r: bool)
    ensures
        r == pats_are_legal(crate::node::pats_view(ps@)),
    decreases *ps,
{
    let mut i: usize = 0;
    while i < ps.len()
        invariant
            i <= ps.len(),
            forall|j: int| 0 <= j < i ==> pat_is_legal(#[trigger] ps[j]@),
        decreases ps.len() - i,
    {
        if !ps[i].is_legal() {
            assert(!pat_is_legal(crate::node::pats_view(ps@)[i as int]));
            return false;
        }
        i += 1;
    }
    assert forall|j: int| 0 <= j < ps.len() implies pat_is_legal(
        #[trigger] crate::node::pats_view(ps@)[j],
    ) by {
        assert(pat_is_legal(ps[j]@));
    }
    true
}

fn opt_expr_legal(o: &Option<Expr>) -> (r: bool)
    ensures
        r == opt_expr_is_legal(crate::node::opt_expr_view(*o)),
    decreases *o,
{
    match o {
        Some(e) => e.is_legal(),
        None => true,
    }
}

impl VarDeclarator {
    pub fn is_legal(&self) -> (r: bool)
        ensures
            r == declarator_is_legal(self@),
        decreases *self,
    {
        self.name.is_legal() && opt_expr_legal(&self.init)
    }
}

fn declarators_legal(ds: &Vec<VarDeclarator>) -> (r: bool)
    ensures
        r == declarators_are_legal(crate::node::declarators_view(ds@)),
    decreases *ds,
{
    let mut i: usize = 0;
    while i < ds.len()
        invariant
            i <= ds.len(),
            forall|j: int| 0 <= j < i ==> declarator_is_legal(#[trigger] ds[j]@),
        decreases ds.len() - i,
    {
        if !ds[i].is_legal() {
            assert(!declarator_is_legal(crate::node::declarators_view(ds@)[i as int]));
            return false;
        }
        i += 1;
    }
    assert forall|j: int| 0 <= j < ds.len() implies declarator_is_legal(
        #[trigger] crate::node::declarators_view(ds@)[j],
    ) by {
        assert(declarator_is_legal(ds[j]@));
    }
    true
}

impl Stmt {
    pub fn is_legal(&self) -> (r: bool)
        ensures
            r == stmt_is_legal(self@),
        decreases *self,
    {
        match self {
            Stmt::Var(ds) => declarators_legal(ds),
            Stmt::Expr(e) => e.is_legal(),
            Stmt::Return(o) => opt_expr_legal(o),
        }
    }
}

fn stmts_legal(ss: &Vec<Stmt>) -> (r: bool)
    ensures
        r == stmts_are_legal(crate::node::stmts_view(ss@)),
    decreases *ss,
{
    let mut i: usize = 0;
    while i < ss.len()
        invariant
            i <= ss.len(),
            forall|j: int| 0 <= j < i ==> stmt_is_legal(#[trigger] ss[j]@),
        decreases ss.len() - i,
    {
        if !ss[i].is_legal() {
            assert(!stmt_is_legal(crate::node::stmts_view(ss@)[i as int]));
            return false;
        }
        i += 1;
    }
    assert forall|j: int| 0 <= j < ss.len() implies stmt_is_legal(
        #[trigger] crate::node::stmts_view(ss@)[j],
    ) by {
        assert(stmt_is_legal(ss[j]@));
    }
    true
}

impl Module {
    /// Whether every expression of the module is one that the grammar
    /// allows.
    pub fn is_legal(&self) -> (r: bool)
        ensures
            r == module_is_legal(self@),
    {
        let mut i: usize = 0;
        while i < self.body.len()
            invariant
                i <= self.body.len(),
                forall|j: int| 0 <= j < i ==> item_is_legal(#[trigger] self@.body[j]),
            decreases self.body.len() - i,
        {
            let ok = match &self.body[i] {
                ModuleItem::ExportDefaultExpr(e) => e.is_legal(),
                ModuleItem::Stmt(s) => s.is_legal(),
                _ => true,
            };
            assert(ok == item_is_legal(self@.body[i as int]));
            if !ok {
                return false;
            }
            i += 1;
        }
        true
    }
}

} // verus!
