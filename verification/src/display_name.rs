//! Name synthesis: gives each component factory call the name under which
//! its result is bound, as a `displayName` property.
//!
//! The pass walks the whole tree, children before parents. Where a node
//! binds a value to a name (a declarator, a plain assignment, a key/value
//! property, a default export) it sends the propagator over that value
//! with the name as candidate.

use vstd::prelude::*;
use crate::copy::copy_expr;
use crate::grammar::{
    call_is_legal, declarator_is_legal, declarators_are_legal, expr_is_legal, exprs_are_legal,
    item_is_legal, module_is_legal, opt_expr_is_legal, pat_is_legal, pats_are_legal,
    prop_is_legal, prop_name_is_legal, props_are_legal, stmt_is_legal, stmts_are_legal,
};
use crate::node::{
    AssignOp, CallExpr, CallView, Expr, ExprView, Module, ModuleItem, ModuleItemView, ModuleView,
    Pat, PatView, Prop, PropName, PropNameView, PropView, Stmt, StmtView, Text, VarDeclarator,
    VarDeclaratorView, declarators_view, exprs_view, items_view, opt_expr_view, pats_view,
    props_view, stmts_view,
};
use crate::propagate::{Folder, propagate, propagate_opt};

verus! {

/// The name that a default export goes by.
pub open spec fn default_export_name() -> Text {
    "input"@
}

/// The name that an assignment target gives: a plain identifier's own
/// text, or the property's text where the target is `object.property`.
pub open spec fn target_name(t: PatView) -> Option<Text> {
    match t {
        PatView::Ident(name) => Some(name),
        PatView::Array(_) => None,
        PatView::Expr(e) => match *e {
            ExprView::Ident(name) => Some(name),
            ExprView::Member { property, computed, .. } => match *property {
                ExprView::Ident(name) => if computed {
                    None
                } else {
                    Some(name)
                },
                _ => None,
            },
            _ => None,
        },
    }
}

/// The candidate that a property key gives: the text of an identifier or
/// string key as a string literal, a numeric key as that number, a computed
/// key as the key expression itself.
pub open spec fn key_candidate(k: PropNameView) -> ExprView {
    match k {
        PropNameView::Ident(s) => ExprView::Str(s),
        PropNameView::Str(s) => ExprView::Str(s),
        PropNameView::Num(n) => ExprView::Num(n),
        PropNameView::Computed(e) => *e,
    }
}

/// The value of an assignment after the pass, given the target and the
/// value with their own parts done.
pub open spec fn named_value(op: AssignOp, target: PatView, value: ExprView) -> ExprView {
    match target_name(target) {
        Some(name) => if op == AssignOp::Assign {
            propagate(value, Some(ExprView::Str(name)))
        } else {
            value
        },
        None => value,
    }
}

/// The expression after the pass.
pub open spec fn named_expr(e: ExprView) -> ExprView
    decreases e,
{
    match e {
        ExprView::Ident(_) => e,
        ExprView::Str(_) => e,
        ExprView::Num(_) => e,
        ExprView::Array(es) => ExprView::Array(named_exprs(es)),
        ExprView::Object(ps) => ExprView::Object(named_props(ps)),
        ExprView::Call(c) => ExprView::Call(named_call(c)),
        ExprView::Member { object, property, computed } => ExprView::Member {
            object: Box::new(named_expr(*object)),
            property: Box::new(named_expr(*property)),
            computed,
        },
        ExprView::Assign { op, target, value } => ExprView::Assign {
            op,
            target: Box::new(named_pat(*target)),
            value: Box::new(named_value(op, named_pat(*target), named_expr(*value))),
        },
        ExprView::Function { params, body } => ExprView::Function {
            params: named_pats(params),
            body: named_stmts(body),
        },
    }
}

pub open spec fn named_call(c: CallView) -> CallView
    decreases c,
{
    CallView { callee: Box::new(named_expr(*c.callee)), args: named_exprs(c.args) }
}

pub open spec fn named_exprs(es: Seq<ExprView>) -> Seq<ExprView>
    decreases es,
{
    Seq::new(es.len(), |i: int| if 0 <= i < es.len() { named_expr(es[i]) } else { arbitrary() })
}

pub open spec fn named_key(k: PropNameView) -> PropNameView
    decreases k,
{
    match k {
        PropNameView::Computed(e) => PropNameView::Computed(Box::new(named_expr(*e))),
        _ => k,
    }
}

/// The property after the pass.
pub open spec fn named_prop(p: PropView) -> PropView
    decreases p,
{
    match p {
        PropView::KeyValue { key, value } => PropView::KeyValue {
            key: named_key(key),
            value: propagate(named_expr(value), Some(key_candidate(named_key(key)))),
        },
        PropView::Shorthand(_) => p,
        PropView::Method { key, params, body } => PropView::Method {
            key: named_key(key),
            params: named_pats(params),
            body: named_stmts(body),
        },
        PropView::Getter { key, body } => PropView::Getter {
            key: named_key(key),
            body: named_stmts(body),
        },
        PropView::Setter { key, param, body } => PropView::Setter {
            key: named_key(key),
            param: named_pat(param),
            body: named_stmts(body),
        },
        PropView::Assign { .. } => p,
    }
}

pub open spec fn named_props(ps: Seq<PropView>) -> Seq<PropView>
    decreases ps,
{
    Seq::new(ps.len(), |i: int| if 0 <= i < ps.len() { named_prop(ps[i]) } else { arbitrary() })
}

pub open spec fn named_pat(p: PatView) -> PatView
    decreases p,
{
    match p {
        PatView::Ident(_) => p,
        PatView::Array(ps) => PatView::Array(named_pats(ps)),
        PatView::Expr(e) => PatView::Expr(Box::new(named_expr(*e))),
    }
}

pub open spec fn named_pats(ps: Seq<PatView>) -> Seq<PatView>
    decreases ps,
{
    Seq::new(ps.len(), |i: int| if 0 <= i < ps.len() { named_pat(ps[i]) } else { arbitrary() })
}

pub open spec fn named_opt(o: Option<ExprView>) -> Option<ExprView>
    decreases o,
{
    match o {
        Some(e) => Some(named_expr(e)),
        None => None,
    }
}

/// The initializer of a declarator after the pass, given the binding and
/// the initializer with their own parts done.
pub open spec fn named_init(name: PatView, init: Option<ExprView>) -> Option<ExprView> {
    match name {
        PatView::Ident(text) => propagate_opt(init, Some(ExprView::Str(text))),
        _ => init,
    }
}

/// The declarator after the pass.
pub open spec fn named_declarator(d: VarDeclaratorView) -> VarDeclaratorView
    decreases d,
{
    VarDeclaratorView {
        name: named_pat(d.name),
        init: named_init(named_pat(d.name), named_opt(d.init)),
    }
}

pub open spec fn named_declarators(ds: Seq<VarDeclaratorView>) -> Seq<VarDeclaratorView>
    decreases ds,
{
    Seq::new(
        ds.len(),
        |i: int| if 0 <= i < ds.len() { named_declarator(ds[i]) } else { arbitrary() },
    )
}

pub open spec fn named_stmt(s: StmtView) -> StmtView
    decreases s,
{
    match s {
        StmtView::Var(ds) => StmtView::Var(named_declarators(ds)),
        StmtView::Expr(e) => StmtView::Expr(named_expr(e)),
        StmtView::Return(o) => StmtView::Return(named_opt(o)),
    }
}

pub open spec fn named_stmts(ss: Seq<StmtView>) -> Seq<StmtView>
    decreases ss,
{
    Seq::new(ss.len(), |i: int| if 0 <= i < ss.len() { named_stmt(ss[i]) } else { arbitrary() })
}

/// The item after the pass.
pub open spec fn named_item(it: ModuleItemView) -> ModuleItemView {
    match it {
        ModuleItemView::ExportDefaultExpr(e) => ModuleItemView::ExportDefaultExpr(
            propagate(named_expr(e), Some(ExprView::Str(default_export_name()))),
        ),
        ModuleItemView::Stmt(s) => ModuleItemView::Stmt(named_stmt(s)),
        _ => it,
    }
}

/// The module after the pass.
pub open spec fn named_module(m: ModuleView) -> ModuleView {
    ModuleView { body: Seq::new(m.body.len(), |i: int| named_item(m.body[i])) }
}

/// The pass. It keeps no state between nodes: each candidate lives only
/// while the value it names is walked.
pub struct DisplayName;

/// The name synthesis pass.
pub fn display_name() -> DisplayName {
    DisplayName
}

fn target_text(target: &Pat) -> (r: Option<String>)
    ensures
        crate::node::opt_text_view(r) == target_name(target@),
{
    match target {
        Pat::Ident(name) => Some(name.clone()),
        Pat::Array(_) => None,
        Pat::Expr(e) => expr_text(e),
    }
}

fn expr_text(e: &Expr) -> (r: Option<String>)
    ensures
        crate::node::opt_text_view(r) == target_name(PatView::Expr(Box::new(e@))),
{
    match e {
        Expr::Ident(name) => Some(name.clone()),
        Expr::Member { property, computed, .. } => {
            assert(e@->Member_property == Box::new(property@));
            match &**property {
                Expr::Ident(name) => if *computed {
                    None
                } else {
                    Some(name.clone())
                },
                _ => None,
            }
        },
        _ => None,
    }
}

fn key_name(key: &PropName) -> (r: Expr)
    requires
        prop_name_is_legal(key@),
    ensures
        r@ == key_candidate(key@),
        expr_is_legal(r@),
{
    match key {
        PropName::Ident(s) => Expr::Str(s.clone()),
        PropName::Str(s) => Expr::Str(s.clone()),
        PropName::Num(n) => Expr::Num(*n),
        PropName::Computed(e) => copy_expr(e),
    }
}

impl DisplayName {
    /// A plain assignment names its right side by its target, where the
    /// target is an identifier or `object.property`. Every other
    /// expression has its parts done and names nothing.
    pub fn fold_expr(&self, e: Expr) -> (r: Expr)
        requires
            expr_is_legal(e@),
        ensures
            r@ == named_expr(e@),
            expr_is_legal(r@),
        decreases e,
    {
        match e {
            Expr::Array(es) => Expr::Array(self.fold_exprs(es)),
            Expr::Object(ps) => Expr::Object(self.fold_props(ps)),
            Expr::Call(c) => Expr::Call(self.fold_call(c)),
            Expr::Member { object, property, computed } => Expr::Member {
                object: Box::new(self.fold_expr(*object)),
                property: Box::new(self.fold_expr(*property)),
                computed,
            },
            Expr::Assign { op, target, value } => {
                let target = self.fold_pat(*target);
                let value = self.fold_expr(*value);
                let value = match op {
                    AssignOp::Assign => match target_text(&target) {
                        Some(name) => {
                            let folder = Folder { name: Some(Expr::Str(name)) };
                            folder.fold_expr(value)
                        },
                        None => value,
                    },
                    _ => value,
                };
                Expr::Assign { op, target: Box::new(target), value: Box::new(value) }
            },
            Expr::Function { params, body } => Expr::Function {
                params: self.fold_pats(params),
                body: self.fold_stmts(body),
            },
            other => other,
        }
    }

    /// A call has its callee and arguments done; the pass itself names
    /// no call.
    pub fn fold_call(&self, call: CallExpr) -> (r: CallExpr)
        requires
            call_is_legal(call@),
        ensures
            r@ == named_call(call@),
            call_is_legal(r@),
        decreases call,
    {
        let CallExpr { callee, args } = call;
        CallExpr { callee: Box::new(self.fold_expr(*callee)), args: self.fold_exprs(args) }
    }

    fn fold_exprs(&self, es: Vec<Expr>) -> (r: Vec<Expr>)
        requires
            exprs_are_legal(exprs_view(es@)),
        ensures
            exprs_view(r@) == named_exprs(exprs_view(es@)),
            exprs_are_legal(exprs_view(r@)),
        decreases es,
    {
        let ghost src = es@;
        let mut out: Vec<Expr> = Vec::new();
        for e in it: es
            invariant
                it.seq() == src,
                exprs_are_legal(exprs_view(src)),
                out.len() == it.index(),
                forall|j: int|
                    #![trigger out[j]]
                    0 <= j < out.len() ==> out[j]@ == named_expr(src[j]@) && expr_is_legal(
                        out[j]@,
                    ),
        {
            assert(expr_is_legal(exprs_view(src)[out.len() as int]));
            let ghost done = out@;
            let next = self.fold_expr(e);
            out.push(next);
            assert forall|j: int| 0 <= j < done.len() implies out[j] == done[j] by {}
        }
        assert forall|j: int| 0 <= j < out.len() implies expr_is_legal(
            #[trigger] exprs_view(out@)[j],
        ) by {
            assert(expr_is_legal(out[j]@));
        }
        assert forall|j: int| 0 <= j < out.len() implies exprs_view(out@)[j] == named_expr(
            exprs_view(src)[j],
        ) by {
            assert(out[j]@ == named_expr(src[j]@));
        }
        assert(exprs_view(out@) =~= named_exprs(exprs_view(src)));
        out
    }

    fn fold_key(&self, key: PropName) -> (r: PropName)
        requires
            prop_name_is_legal(key@),
        ensures
            r@ == named_key(key@),
            prop_name_is_legal(r@),
        decreases key,
    {
        match key {
            PropName::Computed(e) => PropName::Computed(Box::new(self.fold_expr(*e))),
            other => other,
        }
    }

    /// A key/value property names its value by its key. Every other
    /// property has its parts done and names nothing.
    pub fn fold_prop(&self, prop: Prop) -> (r: Prop)
        requires
            prop_is_legal(prop@),
        ensures
            r@ == named_prop(prop@),
            prop_is_legal(r@),
        decreases prop,
    {
        match prop {
            Prop::KeyValue { key, value } => {
                let key = self.fold_key(key);
                let value = self.fold_expr(value);
                let folder = Folder { name: Some(key_name(&key)) };
                let value = folder.fold_expr(value);
                Prop::KeyValue { key, value }
            },
            Prop::Shorthand(s) => Prop::Shorthand(s),
            Prop::Method { key, params, body } => Prop::Method {
                key: self.fold_key(key),
                params: self.fold_pats(params),
                body: self.fold_stmts(body),
            },
            Prop::Getter { key, body } => Prop::Getter {
                key: self.fold_key(key),
                body: self.fold_stmts(body),
            },
            Prop::Setter { key, param, body } => Prop::Setter {
                key: self.fold_key(key),
                param: self.fold_pat(param),
                body: self.fold_stmts(body),
            },
            other => other,
        }
    }

    fn fold_props(&self, ps: Vec<Prop>) -> (r: Vec<Prop>)
        requires
            props_are_legal(props_view(ps@)),
        ensures
            props_view(r@) == named_props(props_view(ps@)),
            props_are_legal(props_view(r@)),
        decreases ps,
    {
        let ghost src = ps@;
        let mut out: Vec<Prop> = Vec::new();
        for p in it: ps
            invariant
                it.seq() == src,
                props_are_legal(props_view(src)),
                out.len() == it.index(),
                forall|j: int|
                    #![trigger out[j]]
                    0 <= j < out.len() ==> out[j]@ == named_prop(src[j]@) && prop_is_legal(
                        out[j]@,
                    ),
        {
            assert(prop_is_legal(props_view(src)[out.len() as int]));
            let ghost done = out@;
            let next = self.fold_prop(p);
            out.push(next);
            assert forall|j: int| 0 <= j < done.len() implies out[j] == done[j] by {}
        }
        assert forall|j: int| 0 <= j < out.len() implies prop_is_legal(
            #[trigger] props_view(out@)[j],
        ) by {
            assert(prop_is_legal(out[j]@));
        }
        assert forall|j: int| 0 <= j < out.len() implies props_view(out@)[j] == named_prop(
            props_view(src)[j],
        ) by {
            assert(out[j]@ == named_prop(src[j]@));
        }
        assert(props_view(out@) =~= named_props(props_view(src)));
        out
    }

    /// A pattern has its expressions done.
    pub fn fold_pat(&self, p: Pat) -> (r: Pat)
        requires
            pat_is_legal(p@),
        ensures
            r@ == named_pat(p@),
            pat_is_legal(r@),
        decreases p,
    {
        match p {
            Pat::Ident(s) => Pat::Ident(s),
            Pat::Array(ps) => Pat::Array(self.fold_pats(ps)),
            Pat::Expr(e) => Pat::Expr(Box::new(self.fold_expr(*e))),
        }
    }

    fn fold_pats(&self, ps: Vec<Pat>) -> (r: Vec<Pat>)
        requires
            pats_are_legal(pats_view(ps@)),
        ensures
            pats_view(r@) == named_pats(pats_view(ps@)),
            pats_are_legal(pats_view(r@)),
        decreases ps,
    {
        let ghost src = ps@;
        let mut out: Vec<Pat> = Vec::new();
        for p in it: ps
            invariant
                it.seq() == src,
                pats_are_legal(pats_view(src)),
                out.len() == it.index(),
                forall|j: int|
                    #![trigger out[j]]
                    0 <= j < out.len() ==> out[j]@ == named_pat(src[j]@) && pat_is_legal(out[j]@),
        {
            assert(pat_is_legal(pats_view(src)[out.len() as int]));
            let ghost done = out@;
            let next = self.fold_pat(p);
            out.push(next);
            assert forall|j: int| 0 <= j < done.len() implies out[j] == done[j] by {}
        }
        assert forall|j: int| 0 <= j < out.len() implies pat_is_legal(
            #[trigger] pats_view(out@)[j],
        ) by {
            assert(pat_is_legal(out[j]@));
        }
        assert forall|j: int| 0 <= j < out.len() implies pats_view(out@)[j] == named_pat(
            pats_view(src)[j],
        ) by {
            assert(out[j]@ == named_pat(src[j]@));
        }
        assert(pats_view(out@) =~= named_pats(pats_view(src)));
        out
    }

    fn fold_opt(&self, o: Option<Expr>) -> (r: Option<Expr>)
        requires
            opt_expr_is_legal(opt_expr_view(o)),
        ensures
            opt_expr_view(r) == named_opt(opt_expr_view(o)),
            opt_expr_is_legal(opt_expr_view(r)),
        decreases o,
    {
        match o {
            Some(e) => Some(self.fold_expr(e)),
            None => None,
        }
    }

    /// A declarator that binds a plain identifier names its initializer by
    /// that identifier.
    pub fn fold_declarator(&self, d: VarDeclarator) -> (r: VarDeclarator)
        requires
            declarator_is_legal(d@),
        ensures
            r@ == named_declarator(d@),
            declarator_is_legal(r@),
        decreases d,
    {
        let VarDeclarator { name, init } = d;
        let name = self.fold_pat(name);
        let init = self.fold_opt(init);
        let init = match (&name, init) {
            (Pat::Ident(text), Some(value)) => {
                let folder = Folder { name: Some(Expr::Str(text.clone())) };
                Some(folder.fold_expr(value))
            },
            (_, init) => init,
        };
        VarDeclarator { name, init }
    }

    fn fold_declarators(&self, ds: Vec<VarDeclarator>) -> (r: Vec<VarDeclarator>)
        requires
            declarators_are_legal(declarators_view(ds@)),
        ensures
            declarators_view(r@) == named_declarators(declarators_view(ds@)),
            declarators_are_legal(declarators_view(r@)),
        decreases ds,
    {
        let ghost src = ds@;
        let mut out: Vec<VarDeclarator> = Vec::new();
        for d in it: ds
            invariant
                it.seq() == src,
                declarators_are_legal(declarators_view(src)),
                out.len() == it.index(),
                forall|j: int|
                    #![trigger out[j]]
                    0 <= j < out.len() ==> out[j]@ == named_declarator(src[j]@)
                        && declarator_is_legal(out[j]@),
        {
            assert(declarator_is_legal(declarators_view(src)[out.len() as int]));
            let ghost done = out@;
            let next = self.fold_declarator(d);
            out.push(next);
            assert forall|j: int| 0 <= j < done.len() implies out[j] == done[j] by {}
        }
        assert forall|j: int| 0 <= j < out.len() implies declarator_is_legal(
            #[trigger] declarators_view(out@)[j],
        ) by {
            assert(declarator_is_legal(out[j]@));
        }
        assert forall|j: int| 0 <= j < out.len() implies declarators_view(out@)[j]
            == named_declarator(declarators_view(src)[j]) by {
            assert(out[j]@ == named_declarator(src[j]@));
        }
        assert(declarators_view(out@) =~= named_declarators(declarators_view(src)));
        out
    }

    /// A statement has its parts done.
    pub fn fold_stmt(&self, s: Stmt) -> (r: Stmt)
        requires
            stmt_is_legal(s@),
        ensures
            r@ == named_stmt(s@),
            stmt_is_legal(r@),
        decreases s,
    {
        match s {
            Stmt::Var(ds) => Stmt::Var(self.fold_declarators(ds)),
            Stmt::Expr(e) => Stmt::Expr(self.fold_expr(e)),
            Stmt::Return(o) => Stmt::Return(self.fold_opt(o)),
        }
    }

    fn fold_stmts(&self, ss: Vec<Stmt>) -> (r: Vec<Stmt>)
        requires
            stmts_are_legal(stmts_view(ss@)),
        ensures
            stmts_view(r@) == named_stmts(stmts_view(ss@)),
            stmts_are_legal(stmts_view(r@)),
        decreases ss,
    {
        let ghost src = ss@;
        let mut out: Vec<Stmt> = Vec::new();
        for s in it: ss
            invariant
                it.seq() == src,
                stmts_are_legal(stmts_view(src)),
                out.len() == it.index(),
                forall|j: int|
                    #![trigger out[j]]
                    0 <= j < out.len() ==> out[j]@ == named_stmt(src[j]@) && stmt_is_legal(
                        out[j]@,
                    ),
        {
            assert(stmt_is_legal(stmts_view(src)[out.len() as int]));
            let ghost done = out@;
            let next = self.fold_stmt(s);
            out.push(next);
            assert forall|j: int| 0 <= j < done.len() implies out[j] == done[j] by {}
        }
        assert forall|j: int| 0 <= j < out.len() implies stmt_is_legal(
            #[trigger] stmts_view(out@)[j],
        ) by {
            assert(stmt_is_legal(out[j]@));
        }
        assert forall|j: int| 0 <= j < out.len() implies stmts_view(out@)[j] == named_stmt(
            stmts_view(src)[j],
        ) by {
            assert(out[j]@ == named_stmt(src[j]@));
        }
        assert(stmts_view(out@) =~= named_stmts(stmts_view(src)));
        out
    }

    /// A default export names its expression `input`. A statement has its
    /// parts done. Imports and exports of bindings stay as they are.
    pub fn fold_item(&self, item: ModuleItem) -> (r: ModuleItem)
        requires
            item_is_legal(item@),
        ensures
            r@ == named_item(item@),
            item_is_legal(r@),
    {
        match item {
            ModuleItem::ExportDefaultExpr(e) => {
                let e = self.fold_expr(e);
                let folder = Folder { name: Some(Expr::Str(String::from_str("input"))) };
                ModuleItem::ExportDefaultExpr(folder.fold_expr(e))
            },
            ModuleItem::Stmt(s) => ModuleItem::Stmt(self.fold_stmt(s)),
            other => other,
        }
    }

    /// Runs the pass over one module.
    pub fn fold_module(&self, module: Module) -> (r: Module)
        requires
            module_is_legal(module@),
        ensures
            r@ == named_module(module@),
            module_is_legal(r@),
    {
        let ghost src = module.body@;
        let ghost before = module@;
        let mut out: Vec<ModuleItem> = Vec::new();
        for item in it: module.body
            invariant
                it.seq() == src,
                before.body == items_view(src),
                module_is_legal(before),
                out.len() == it.index(),
                forall|j: int|
                    #![trigger out[j]]
                    0 <= j < out.len() ==> out[j]@ == named_item(src[j]@) && item_is_legal(
                        out[j]@,
                    ),
        {
            assert(item_is_legal(before.body[out.len() as int]));
            let ghost done = out@;
            let next = self.fold_item(item);
            out.push(next);
            assert forall|j: int| 0 <= j < done.len() implies out[j] == done[j] by {}
        }
        let r = Module { body: out };
        assert forall|j: int| 0 <= j < r@.body.len() implies item_is_legal(
            #[trigger] r@.body[j],
        ) by {
            assert(item_is_legal(out[j]@));
        }
        assert(r@.body =~= named_module(before).body);
        r
    }
}

} // verus!
