//! Deep copies of nodes, each with the same view as its source.

use vstd::prelude::*;
use crate::node::{
    CallExpr, Expr, Pat, Prop, PropName, Stmt, VarDeclarator, declarators_view, exprs_view,
    opt_expr_view, pats_view, props_view, stmts_view,
};

verus! {

/// A copy of the expression, every part of it copied in turn.
pub fn copy_expr(e: &Expr) -> (r: Expr)
    ensures
        r@ == e@,
    decreases *e,
{
    match e {
        Expr::Ident(s) => Expr::Ident(s.clone()),
        Expr::Str(s) => Expr::Str(s.clone()),
        Expr::Num(n) => Expr::Num(*n),
        Expr::Array(es) => Expr::Array(copy_exprs(es)),
        Expr::Object(ps) => Expr::Object(copy_props(ps)),
        Expr::Call(c) => Expr::Call(copy_call(c)),
        Expr::Member { object, property, computed } => Expr::Member {
            object: Box::new(copy_expr(object)),
            property: Box::new(copy_expr(property)),
            computed: *computed,
        },
        Expr::Assign { op, target, value } => Expr::Assign {
            op: *op,
            target: Box::new(copy_pat(target)),
            value: Box::new(copy_expr(value)),
        },
        Expr::Function { params, body } => Expr::Function {
            params: copy_pats(params),
            body: copy_stmts(body),
        },
    }
}

pub fn copy_call(c: &CallExpr) -> (r: CallExpr)
    ensures
        r@ == c@,
    decreases *c,
{
    CallExpr { callee: Box::new(copy_expr(&c.callee)), args: copy_exprs(&c.args) }
}

pub fn copy_exprs(es: &Vec<Expr>) -> (r: Vec<Expr>)
    ensures
        exprs_view(r@) == exprs_view(es@),
    decreases *es,
{
    let mut out: Vec<Expr> = Vec::new();
    let mut i: usize = 0;
    while i < es.len()
        invariant
            i <= es.len(),
            out.len() == i,
            forall|j: int| 0 <= j < i ==> out[j]@ == es[j]@,
        decreases es.len() - i,
    {
        out.push(copy_expr(&es[i]));
        i += 1;
    }
    out
}

pub fn copy_prop_name(k: &PropName) -> (r: PropName)
    ensures
        r@ == k@,
    decreases *k,
{
    match k {
        PropName::Ident(s) => PropName::Ident(s.clone()),
        PropName::Str(s) => PropName::Str(s.clone()),
        PropName::Num(n) => PropName::Num(*n),
        PropName::Computed(e) => PropName::Computed(Box::new(copy_expr(e))),
    }
}

pub fn copy_prop(p: &Prop) -> (r: Prop)
    ensures
        r@ == p@,
    decreases *p,
{
    match p {
        Prop::KeyValue { key, value } => Prop::KeyValue {
            key: copy_prop_name(key),
            value: copy_expr(value),
        },
        Prop::Shorthand(s) => Prop::Shorthand(s.clone()),
        Prop::Method { key, params, body } => Prop::Method {
            key: copy_prop_name(key),
            params: copy_pats(params),
            body: copy_stmts(body),
        },
        Prop::Getter { key, body } => Prop::Getter {
            key: copy_prop_name(key),
            body: copy_stmts(body),
        },
        Prop::Setter { key, param, body } => Prop::Setter {
            key: copy_prop_name(key),
            param: copy_pat(param),
            body: copy_stmts(body),
        },
        Prop::Assign { name, value } => Prop::Assign {
            name: name.clone(),
            value: copy_expr(value),
        },
    }
}

pub fn copy_props(ps: &Vec<Prop>) -> (r: Vec<Prop>)
    ensures
        props_view(r@) == props_view(ps@),
    decreases *ps,
{
    let mut out: Vec<Prop> = Vec::new();
    let mut i: usize = 0;
    while i < ps.len()
        invariant
            i <= ps.len(),
            out.len() == i,
            forall|j: int| 0 <= j < i ==> out[j]@ == ps[j]@,
        decreases ps.len() - i,
    {
        out.push(copy_prop(&ps[i]));
        i += 1;
    }
    out
}

pub fn copy_pat(p: &Pat) -> (r: Pat)
    ensures
        r@ == p@,
    decreases *p,
{
    match p {
        Pat::Ident(s) => Pat::Ident(s.clone()),
        Pat::Array(ps) => Pat::Array(copy_pats(ps)),
        Pat::Expr(e) => Pat::Expr(Box::new(copy_expr(e))),
    }
}

pub fn copy_pats(ps: &Vec<Pat>) -> (r: Vec<Pat>)
    ensures
        pats_view(r@) == pats_view(ps@),
    decreases *ps,
{
    let mut out: Vec<Pat> = Vec::new();
    let mut i: usize = 0;
    while i < ps.len()
        invariant
            i <= ps.len(),
            out.len() == i,
            forall|j: int| 0 <= j < i ==> out[j]@ == ps[j]@,
        decreases ps.len() - i,
    {
        out.push(copy_pat(&ps[i]));
        i += 1;
    }
    out
}

pub fn copy_opt_expr(o: &Option<Expr>) -> (r: Option<Expr>)
    ensures
        opt_expr_view(r) == opt_expr_view(*o),
    decreases *o,
{
    match o {
        Some(e) => Some(copy_expr(e)),
        None => None,
    }
}

pub fn copy_declarator(d: &VarDeclarator) -> (r: VarDeclarator)
    ensures
        r@ == d@,
    decreases *d,
{
    VarDeclarator { name: copy_pat(&d.name), init: copy_opt_expr(&d.init) }
}

pub fn copy_declarators(ds: &Vec<VarDeclarator>) -> (r: Vec<VarDeclarator>)
    ensures
        declarators_view(r@) == declarators_view(ds@),
    decreases *ds,
{
    let mut out: Vec<VarDeclarator> = Vec::new();
    let mut i: usize = 0;
    while i < ds.len()
        invariant
            i <= ds.len(),
            out.len() == i,
            forall|j: int| 0 <= j < i ==> out[j]@ == ds[j]@,
        decreases ds.len() - i,
    {
        out.push(copy_declarator(&ds[i]));
        i += 1;
    }
    out
}

pub fn copy_stmt(s: &Stmt) -> (r: Stmt)
    ensures
        r@ == s@,
    decreases *s,
{
    match s {
        Stmt::Var(ds) => Stmt::Var(copy_declarators(ds)),
        Stmt::Expr(e) => Stmt::Expr(copy_expr(e)),
        Stmt::Return(o) => Stmt::Return(copy_opt_expr(o)),
    }
}

pub fn copy_stmts(ss: &Vec<Stmt>) -> (r: Vec<Stmt>)
    ensures
        stmts_view(r@) == stmts_view(ss@),
    decreases *ss,
{
    let mut out: Vec<Stmt> = Vec::new();
    let mut i: usize = 0;
    while i < ss.len()
        invariant
            i <= ss.len(),
            out.len() == i,
            forall|j: int| 0 <= j < i ==> out[j]@ == ss[j]@,
        decreases ss.len() - i,
    {
        out.push(copy_stmt(&ss[i]));
        i += 1;
    }
    out
}

impl Clone for Expr {
    fn clone(&self) -> (r: Self)
        ensures
            r@ == self@,
    {
        copy_expr(self)
    }
}

impl Clone for CallExpr {
    fn clone(&self) -> (r: Self)
        ensures
            r@ == self@,
    {
        copy_call(self)
    }
}

impl Clone for PropName {
    fn clone(&self) -> (r: Self)
        ensures
            r@ == self@,
    {
        copy_prop_name(self)
    }
}

impl Clone for Prop {
    fn clone(&self) -> (r: Self)
        ensures
            r@ == self@,
    {
        copy_prop(self)
    }
}

impl Clone for Pat {
    fn clone(&self) -> (r: Self)
        ensures
            r@ == self@,
    {
        copy_pat(self)
    }
}

impl Clone for VarDeclarator {
    fn clone(&self) -> (r: Self)
        ensures
            r@ == self@,
    {
        copy_declarator(self)
    }
}

impl Clone for Stmt {
    fn clone(&self) -> (r: Self)
        ensures
            r@ == self@,
    {
        copy_stmt(self)
    }
}

} // verus!
