//! The candidate propagator: carries one candidate name down an expression
//! to the component factory calls in it, and stops at array and object
//! literals.

use vstd::prelude::*;
use crate::copy::copy_expr;
use crate::text::is_text;
use crate::grammar::{
    call_is_legal, declarator_is_legal, declarators_are_legal, expr_is_legal, exprs_are_legal,
    opt_expr_is_legal, pat_is_legal, pats_are_legal, prop_is_legal, props_are_legal, stmt_is_legal,
    stmts_are_legal,
};
use crate::node::{
    CallExpr, CallView, Expr, ExprView, Pat, PatView, Prop, PropName, PropNameView, PropView, Stmt,
    StmtView, Text, VarDeclarator, VarDeclaratorView, declarators_view, exprs_view, opt_expr_view,
    pats_view, props_view, stmts_view,
};

verus! {

/// The key under which a component carries its name.
pub open spec fn display_name_key() -> Text {
    "displayName"@
}

/// The callee is `React.createClass` or `createReactClass`, written just so.
pub open spec fn is_factory_callee(callee: ExprView) -> bool {
    match callee {
        ExprView::Member { object, property, computed } => !computed && *object == ExprView::Ident(
            "React"@,
        ) && *property == ExprView::Ident("createClass"@),
        ExprView::Ident(name) => name == "createReactClass"@,
        _ => false,
    }
}

/// The call makes a component.
pub open spec fn is_factory_call(c: CallView) -> bool {
    is_factory_callee(*c.callee)
}

/// The key is the identifier or the string `displayName`.
pub open spec fn key_is_display_name(k: PropNameView) -> bool {
    match k {
        PropNameView::Ident(s) => s == display_name_key(),
        PropNameView::Str(s) => s == display_name_key(),
        _ => false,
    }
}

/// The property is written under the literal key `displayName`.
pub open spec fn names_display_name(p: PropView) -> bool {
    match p {
        PropView::KeyValue { key, .. } => key_is_display_name(key),
        PropView::Shorthand(s) => s == display_name_key(),
        PropView::Method { key, .. } => key_is_display_name(key),
        PropView::Getter { key, .. } => key_is_display_name(key),
        PropView::Setter { key, .. } => key_is_display_name(key),
        PropView::Assign { .. } => false,
    }
}

pub open spec fn has_display_name(ps: Seq<PropView>) -> bool {
    exists|i: int| 0 <= i < ps.len() && names_display_name(#[trigger] ps[i])
}

/// No property is of the shape that only a binding pattern may hold.
pub open spec fn no_assign_props(ps: Seq<PropView>) -> bool {
    forall|i: int| 0 <= i < ps.len() ==> !(#[trigger] ps[i] is Assign)
}

/// The property `displayName: <name>`.
pub open spec fn display_name_prop(name: ExprView) -> PropView {
    PropView::KeyValue { key: PropNameView::Ident(display_name_key()), value: name }
}

/// The first argument is an object literal with no `displayName` yet.
pub open spec fn lacks_display_name(c: CallView) -> bool {
    c.args.len() > 0 && (c.args[0] matches ExprView::Object(ps) && !has_display_name(ps))
}

/// The call with `displayName: <name>` added at the end of its first
/// argument, if that is an object literal without one; else the call as
/// it is.
pub open spec fn with_display_name(c: CallView, name: ExprView) -> CallView {
    if lacks_display_name(c) {
        CallView {
            callee: c.callee,
            args: c.args.update(
                0,
                ExprView::Object(c.args[0]->Object_0.push(display_name_prop(name))),
            ),
        }
    } else {
        c
    }
}

/// What the propagator makes of an expression. Literals and names stay;
/// array and object literals stay, contents included; a call has its callee
/// and arguments done first and then, if it makes a component and there is
/// a candidate, gets the candidate as its `displayName`; every other shape
/// has its children done.
pub open spec fn propagate(e: ExprView, name: Option<ExprView>) -> ExprView
    decreases e,
{
    match e {
        ExprView::Ident(_) => e,
        ExprView::Str(_) => e,
        ExprView::Num(_) => e,
        ExprView::Array(_) => e,
        ExprView::Object(_) => e,
        ExprView::Call(c) => ExprView::Call(propagate_call(c, name)),
        ExprView::Member { object, property, computed } => ExprView::Member {
            object: Box::new(propagate(*object, name)),
            property: Box::new(propagate(*property, name)),
            computed,
        },
        ExprView::Assign { op, target, value } => ExprView::Assign {
            op,
            target: Box::new(propagate_pat(*target, name)),
            value: Box::new(propagate(*value, name)),
        },
        ExprView::Function { params, body } => ExprView::Function {
            params: propagate_pats(params, name),
            body: propagate_stmts(body, name),
        },
    }
}

pub open spec fn propagate_call(c: CallView, name: Option<ExprView>) -> CallView
    decreases c,
{
    let inner = CallView {
        callee: Box::new(propagate(*c.callee, name)),
        args: propagate_exprs(c.args, name),
    };
    match name {
        Some(n) => if is_factory_call(inner) {
            with_display_name(inner, n)
        } else {
            inner
        },
        None => inner,
    }
}

pub open spec fn propagate_exprs(es: Seq<ExprView>, name: Option<ExprView>) -> Seq<ExprView>
    decreases es,
{
    Seq::new(
        es.len(),
        |i: int| if 0 <= i < es.len() { propagate(es[i], name) } else { arbitrary() },
    )
}

pub open spec fn propagate_pat(p: PatView, name: Option<ExprView>) -> PatView
    decreases p,
{
    match p {
        PatView::Ident(_) => p,
        PatView::Array(ps) => PatView::Array(propagate_pats(ps, name)),
        PatView::Expr(e) => PatView::Expr(Box::new(propagate(*e, name))),
    }
}

pub open spec fn propagate_pats(ps: Seq<PatView>, name: Option<ExprView>) -> Seq<PatView>
    decreases ps,
{
    Seq::new(
        ps.len(),
        |i: int| if 0 <= i < ps.len() { propagate_pat(ps[i], name) } else { arbitrary() },
    )
}

pub open spec fn propagate_opt(o: Option<ExprView>, name: Option<ExprView>) -> Option<ExprView>
    decreases o,
{
    match o {
        Some(e) => Some(propagate(e, name)),
        None => None,
    }
}

pub open spec fn propagate_declarator(
    d: VarDeclaratorView,
    name: Option<ExprView>,
) -> VarDeclaratorView
    decreases d,
{
    VarDeclaratorView { name: propagate_pat(d.name, name), init: propagate_opt(d.init, name) }
}

pub open spec fn propagate_declarators(
    ds: Seq<VarDeclaratorView>,
    name: Option<ExprView>,
) -> Seq<VarDeclaratorView>
    decreases ds,
{
    Seq::new(
        ds.len(),
        |i: int| if 0 <= i < ds.len() { propagate_declarator(ds[i], name) } else { arbitrary() },
    )
}

pub open spec fn propagate_stmt(s: StmtView, name: Option<ExprView>) -> StmtView
    decreases s,
{
    match s {
        StmtView::Var(ds) => StmtView::Var(propagate_declarators(ds, name)),
        StmtView::Expr(e) => StmtView::Expr(propagate(e, name)),
        StmtView::Return(o) => StmtView::Return(propagate_opt(o, name)),
    }
}

pub open spec fn propagate_stmts(ss: Seq<StmtView>, name: Option<ExprView>) -> Seq<StmtView>
    decreases ss,
{
    Seq::new(
        ss.len(),
        |i: int| if 0 <= i < ss.len() { propagate_stmt(ss[i], name) } else { arbitrary() },
    )
}

fn is_ident(e: &Expr, literal: &'static str) -> (r: bool)
    ensures
        r == (e@ == ExprView::Ident(literal@)),
{
    match e {
        Expr::Ident(name) => is_text(name, literal),
        _ => false,
    }
}

/// Whether the call is `React.createClass(..)` or `createReactClass(..)`.
pub fn is_create_class_call(call: &CallExpr) -> (r: bool)
    ensures
        r == is_factory_call(call@),
{
    match &*call.callee {
        Expr::Member { object, property, computed } => !*computed && is_ident(object, "React")
            && is_ident(property, "createClass"),
        Expr::Ident(name) => is_text(name, "createReactClass"),
        _ => false,
    }
}

fn is_name_display_name(key: &PropName) -> (r: bool)
    ensures
        r == key_is_display_name(key@),
{
    match key {
        PropName::Ident(s) => is_text(s, "displayName"),
        PropName::Str(s) => is_text(s, "displayName"),
        PropName::Num(_) => false,
        PropName::Computed(_) => false,
    }
}

/// Whether the property is written under the literal key `displayName`.
/// A computed key never counts, whatever it evaluates to.
pub fn is_key_display_name(prop: &Prop) -> (r: bool)
    requires
        !(prop@ is Assign),
    ensures
        r == names_display_name(prop@),
{
    match prop {
        Prop::Shorthand(s) => is_text(s, "displayName"),
        Prop::Method { key, .. } => is_name_display_name(key),
        Prop::Getter { key, .. } => is_name_display_name(key),
        Prop::Setter { key, .. } => is_name_display_name(key),
        Prop::KeyValue { key, .. } => is_name_display_name(key),
        Prop::Assign { .. } => false,
    }
}

fn any_display_name(props: &Vec<Prop>) -> (r: bool)
    requires
        no_assign_props(props_view(props@)),
    ensures
        r == has_display_name(props_view(props@)),
{
    let mut i: usize = 0;
    while i < props.len()
        invariant
            i <= props.len(),
            no_assign_props(props_view(props@)),
            forall|j: int| 0 <= j < i ==> !names_display_name(#[trigger] props_view(props@)[j]),
        decreases props.len() - i,
    {
        assert(!(props_view(props@)[i as int] is Assign));
        if is_key_display_name(&props[i]) {
            assert(names_display_name(props_view(props@)[i as int]));
            return true;
        }
        i += 1;
    }
    false
}

/// Whether `add_display_name` would add to the call.
pub fn wants_display_name(call: &CallExpr) -> (r: bool)
    requires
        lacks_assign_props(call@),
    ensures
        r == lacks_display_name(call@),
{
    if call.args.len() == 0 {
        return false;
    }
    assert(call@.args[0] == call.args[0]@);
    match &call.args[0] {
        Expr::Object(props) => !any_display_name(props),
        _ => false,
    }
}

/// The first argument, if it is an object literal, holds nothing that only
/// a binding pattern may hold.
pub open spec fn lacks_assign_props(c: CallView) -> bool {
    c.args.len() > 0 ==> (c.args[0] matches ExprView::Object(ps) ==> no_assign_props(ps))
}

/// A call that the grammar allows has nothing in its first argument that
/// only a binding pattern may hold.
pub proof fn lemma_legal_call(c: CallView)
    requires
        call_is_legal(c),
    ensures
        lacks_assign_props(c),
{
    if c.args.len() > 0 {
        assert(expr_is_legal(c.args[0]));
        if let ExprView::Object(ps) = c.args[0] {
            assert(props_are_legal(ps));
            assert forall|i: int| 0 <= i < ps.len() implies !(#[trigger] ps[i] is Assign) by {
                assert(prop_is_legal(ps[i]));
            }
        }
    }
}

/// Gives the call's first argument the property `displayName: <name>`, at
/// the end, if that argument is an object literal and has no property
/// written under that key. Any other call comes back as it is.
pub fn add_display_name(call: CallExpr, name: Expr) -> (r: CallExpr)
    requires
        lacks_assign_props(call@),
    ensures
        r@ == with_display_name(call@, name@),
{
    if !wants_display_name(&call) {
        return call;
    }
    let ghost before = call@;
    assert(before.args[0] == call.args[0]@);
    let CallExpr { callee, mut args } = call;
    let mut first = Expr::Num(0);
    args.set_and_swap(0, &mut first);
    match first {
        Expr::Object(mut props) => {
            let ghost old_props = props_view(props@);
            props.push(
                Prop::KeyValue { key: PropName::Ident(String::from_str("displayName")), value: name },
            );
            assert(props_view(props@) =~= old_props.push(display_name_prop(name@)));
            args.set(0, Expr::Object(props));
            assert(exprs_view(args@) =~= before.args.update(
                0,
                ExprView::Object(old_props.push(display_name_prop(name@))),
            ));
            CallExpr { callee, args }
        },
        other => {
            args.set(0, other);
            CallExpr { callee, args }
        },
    }
}

/// The propagator's state: the candidate name it carries, if any.
pub struct Folder {
    pub name: Option<Expr>,
}

impl Folder {
    /// The candidate as contracts see it.
    pub open spec fn candidate(&self) -> Option<ExprView> {
        opt_expr_view(self.name)
    }

    /// The candidate, if any, is an expression that the grammar allows.
    pub open spec fn wf(&self) -> bool {
        opt_expr_is_legal(self.candidate())
    }

    /// Carries the candidate down the expression. Array and object
    /// literals come back as they are.
    pub fn fold_expr(&self, e: Expr) -> (r: Expr)
        requires
            self.wf(),
            expr_is_legal(e@),
        ensures
            r@ == propagate(e@, self.candidate()),
            expr_is_legal(r@),
        decreases e,
    {
        match e {
            Expr::Call(c) => Expr::Call(self.fold(c)),
            Expr::Member { object, property, computed } => Expr::Member {
                object: Box::new(self.fold_expr(*object)),
                property: Box::new(self.fold_expr(*property)),
                computed,
            },
            Expr::Assign { op, target, value } => Expr::Assign {
                op,
                target: Box::new(self.fold_pat(*target)),
                value: Box::new(self.fold_expr(*value)),
            },
            Expr::Function { params, body } => Expr::Function {
                params: self.fold_pats(params),
                body: self.fold_stmts(body),
            },
            other => other,
        }
    }

    /// Does the callee and the arguments, then names the call if it makes
    /// a component and a candidate is at hand.
    pub fn fold(&self, call: CallExpr) -> (r: CallExpr)
        requires
            self.wf(),
            call_is_legal(call@),
        ensures
            r@ == propagate_call(call@, self.candidate()),
            call_is_legal(r@),
        decreases call,
    {
        let CallExpr { callee, args } = call;
        let inner = CallExpr {
            callee: Box::new(self.fold_expr(*callee)),
            args: self.fold_exprs(args),
        };
        proof {
            lemma_legal_call(inner@);
        }
        match &self.name {
            Some(name) => {
                if is_create_class_call(&inner) && wants_display_name(&inner) {
                    let ghost plain = inner@;
                    let named = add_display_name(inner, copy_expr(name));
                    proof {
                        assert(expr_is_legal(plain.args[0]));
                        let ps = plain.args[0]->Object_0;
                        assert(props_are_legal(ps));
                        let qs = ps.push(display_name_prop(name@));
                        assert(prop_is_legal(display_name_prop(name@)));
                        assert forall|i: int| 0 <= i < qs.len() implies prop_is_legal(
                            #[trigger] qs[i],
                        ) by {
                            if i < ps.len() {
                                assert(prop_is_legal(ps[i]));
                            }
                        }
                        assert(props_are_legal(qs));
                        assert(expr_is_legal(ExprView::Object(qs)));
                        assert forall|i: int| 0 <= i < named@.args.len() implies expr_is_legal(
                            #[trigger] named@.args[i],
                        ) by {
                            if i > 0 {
                                assert(expr_is_legal(plain.args[i]));
                            }
                        }
                    }
                    named
                } else {
                    inner
                }
            },
            None => inner,
        }
    }

    fn fold_exprs(&self, es: Vec<Expr>) -> (r: Vec<Expr>)
        requires
            self.wf(),
            exprs_are_legal(exprs_view(es@)),
        ensures
            exprs_view(r@) == propagate_exprs(exprs_view(es@), self.candidate()),
            exprs_are_legal(exprs_view(r@)),
        decreases es,
    {
        let ghost src = es@;
        let mut out: Vec<Expr> = Vec::new();
        for e in it: es
            invariant
                self.wf(),
                it.seq() == src,
                exprs_are_legal(exprs_view(src)),
                out.len() == it.index(),
                forall|j: int|
                    #![trigger out[j]]
                    0 <= j < out.len() ==> out[j]@ == propagate(src[j]@, self.candidate())
                        && expr_is_legal(out[j]@),
        {
            assert(expr_is_legal(exprs_view(src)[out.len() as int]));
            let ghost done = out@;
            let next = self.fold_expr(e);
            out.push(next);
            assert forall|j: int| 0 <= j < done.len() implies out[j] == done[j] by {}
        }
        assert forall|j: int| 0 <= j < out.len() implies expr_is_legal(
            #[trigger] exprs_view(out@)[j],
        ) by {
            assert(expr_is_legal(out[j]@));
        }
        assert forall|j: int| 0 <= j < out.len() implies exprs_view(out@)[j] == propagate(
            exprs_view(src)[j],
            self.candidate(),
        ) by {
            assert(out[j]@ == propagate(src[j]@, self.candidate()));
        }
        assert(exprs_view(out@) =~= propagate_exprs(exprs_view(src), self.candidate()));
        out
    }

    /// Carries the candidate down the expressions of a pattern.
    pub fn fold_pat(&self, p: Pat) -> (r: Pat)
        requires
            self.wf(),
            pat_is_legal(p@),
        ensures
            r@ == propagate_pat(p@, self.candidate()),
            pat_is_legal(r@),
        decreases p,
    {
        match p {
            Pat::Ident(s) => Pat::Ident(s),
            Pat::Array(ps) => Pat::Array(self.fold_pats(ps)),
            Pat::Expr(e) => Pat::Expr(Box::new(self.fold_expr(*e))),
        }
    }

    fn fold_pats(&self, ps: Vec<Pat>) -> (r: Vec<Pat>)
        requires
            self.wf(),
            pats_are_legal(pats_view(ps@)),
        ensures
            pats_view(r@) == propagate_pats(pats_view(ps@), self.candidate()),
            pats_are_legal(pats_view(r@)),
        decreases ps,
    {
        let ghost src = ps@;
        let mut out: Vec<Pat> = Vec::new();
        for p in it: ps
            invariant
                self.wf(),
                it.seq() == src,
                pats_are_legal(pats_view(src)),
                out.len() == it.index(),
                forall|j: int|
                    #![trigger out[j]]
                    0 <= j < out.len() ==> out[j]@ == propagate_pat(src[j]@, self.candidate())
                        && pat_is_legal(out[j]@),
        {
            assert(pat_is_legal(pats_view(src)[out.len() as int]));
            let ghost done = out@;
            let next = self.fold_pat(p);
            out.push(next);
            assert forall|j: int| 0 <= j < done.len() implies out[j] == done[j] by {}
        }
        assert forall|j: int| 0 <= j < out.len() implies pat_is_legal(
            #[trigger] pats_view(out@)[j],
        ) by {
            assert(pat_is_legal(out[j]@));
        }
        assert forall|j: int| 0 <= j < out.len() implies pats_view(out@)[j] == propagate_pat(
            pats_view(src)[j],
            self.candidate(),
        ) by {
            assert(out[j]@ == propagate_pat(src[j]@, self.candidate()));
        }
        assert(pats_view(out@) =~= propagate_pats(pats_view(src), self.candidate()));
        out
    }

    fn fold_opt(&self, o: Option<Expr>) -> (r: Option<Expr>)
        requires
            self.wf(),
            opt_expr_is_legal(opt_expr_view(o)),
        ensures
            opt_expr_view(r) == propagate_opt(opt_expr_view(o), self.candidate()),
            opt_expr_is_legal(opt_expr_view(r)),
        decreases o,
    {
        match o {
            Some(e) => Some(self.fold_expr(e)),
            None => None,
        }
    }

    /// Carries the candidate down a declarator inside a function body.
    pub fn fold_declarator(&self, d: VarDeclarator) -> (r: VarDeclarator)
        requires
            self.wf(),
            declarator_is_legal(d@),
        ensures
            r@ == propagate_declarator(d@, self.candidate()),
            declarator_is_legal(r@),
        decreases d,
    {
        let VarDeclarator { name, init } = d;
        VarDeclarator { name: self.fold_pat(name), init: self.fold_opt(init) }
    }

    fn fold_declarators(&self, ds: Vec<VarDeclarator>) -> (r: Vec<VarDeclarator>)
        requires
            self.wf(),
            declarators_are_legal(declarators_view(ds@)),
        ensures
            declarators_view(r@) == propagate_declarators(declarators_view(ds@), self.candidate()),
            declarators_are_legal(declarators_view(r@)),
        decreases ds,
    {
        let ghost src = ds@;
        let mut out: Vec<VarDeclarator> = Vec::new();
        for d in it: ds
            invariant
                self.wf(),
                it.seq() == src,
                declarators_are_legal(declarators_view(src)),
                out.len() == it.index(),
                forall|j: int|
                    #![trigger out[j]]
                    0 <= j < out.len() ==> out[j]@ == propagate_declarator(src[j]@, self.candidate())
                        && declarator_is_legal(out[j]@),
        {
            assert(declarator_is_legal(declarators_view(src)[out.len() as int]));
            let ghost done = out@;
            let next = self.fold_declarator(d);
            out.push(next);
            assert forall|j: int| 0 <= j < done.len() implies out[j] == done[j] by {}
        }
        assert forall|j: int| 0 <= j < out.len() implies declarator_is_legal(
            #[trigger] declarators_view(out@)[j],
        ) by {
            assert(declarator_is_legal(out[j]@));
        }
        assert forall|j: int| 0 <= j < out.len() implies declarators_view(out@)[j] == propagate_declarator(
            declarators_view(src)[j],
            self.candidate(),
        ) by {
            assert(out[j]@ == propagate_declarator(src[j]@, self.candidate()));
        }
        assert(declarators_view(out@) =~= propagate_declarators(declarators_view(src), self.candidate()));
        out
    }

    /// Carries the candidate down a statement of a function body.
    pub fn fold_stmt(&self, s: Stmt) -> (r: Stmt)
        requires
            self.wf(),
            stmt_is_legal(s@),
        ensures
            r@ == propagate_stmt(s@, self.candidate()),
            stmt_is_legal(r@),
        decreases s,
    {
        match s {
            Stmt::Var(ds) => Stmt::Var(self.fold_declarators(ds)),
            Stmt::Expr(e) => Stmt::Expr(self.fold_expr(e)),
            Stmt::Return(o) => Stmt::Return(self.fold_opt(o)),
        }
    }

    fn fold_stmts(&self, ss: Vec<Stmt>) -> (r: Vec<Stmt>)
        requires
            self.wf(),
            stmts_are_legal(stmts_view(ss@)),
        ensures
            stmts_view(r@) == propagate_stmts(stmts_view(ss@), self.candidate()),
            stmts_are_legal(stmts_view(r@)),
        decreases ss,
    {
        let ghost src = ss@;
        let mut out: Vec<Stmt> = Vec::new();
        for s in it: ss
            invariant
                self.wf(),
                it.seq() == src,
                stmts_are_legal(stmts_view(src)),
                out.len() == it.index(),
                forall|j: int|
                    #![trigger out[j]]
                    0 <= j < out.len() ==> out[j]@ == propagate_stmt(src[j]@, self.candidate())
                        && stmt_is_legal(out[j]@),
        {
            assert(stmt_is_legal(stmts_view(src)[out.len() as int]));
            let ghost done = out@;
            let next = self.fold_stmt(s);
            out.push(next);
            assert forall|j: int| 0 <= j < done.len() implies out[j] == done[j] by {}
        }
        assert forall|j: int| 0 <= j < out.len() implies stmt_is_legal(
            #[trigger] stmts_view(out@)[j],
        ) by {
            assert(stmt_is_legal(out[j]@));
        }
        assert forall|j: int| 0 <= j < out.len() implies stmts_view(out@)[j] == propagate_stmt(
            stmts_view(src)[j],
            self.candidate(),
        ) by {
            assert(out[j]@ == propagate_stmt(src[j]@, self.candidate()));
        }
        assert(stmts_view(out@) =~= propagate_stmts(stmts_view(src), self.candidate()));
        out
    }
}

} // verus!
