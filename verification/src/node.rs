//! The node model: the program shapes the passes read and rewrite, and the
//! mathematical view of each.

use vstd::prelude::*;

verus! {

/// Text as contracts see it.
pub type Text = Seq<char>;

/// An assignment operator. Only `Assign`, the plain `=`, gives its right
/// side a name.
#[derive(Clone, Copy, Debug, PartialEq, Eq, Structural)]
pub enum AssignOp {
    Assign,
    AddAssign,
    SubAssign,
    MulAssign,
    DivAssign,
    ModAssign,
    LShiftAssign,
    RShiftAssign,
    ZeroFillRShiftAssign,
    BitOrAssign,
    BitXorAssign,
    BitAndAssign,
    ExpAssign,
    AndAssign,
    OrAssign,
    NullishAssign,
}

/// A call: the callee and the arguments in source order.
#[derive(Debug, PartialEq, Eq)]
pub struct CallExpr {
    pub callee: Box<Expr>,
    pub args: Vec<Expr>,
}

/// An expression.
#[derive(Debug, PartialEq, Eq)]
pub enum Expr {
    /// A name.
    Ident(String),
    /// A string literal, by its value.
    Str(String),
    /// A numeric literal, held as the bit pattern of its binary64 value.
    Num(u64),
    /// An array literal: its elements in source order.
    Array(Vec<Expr>),
    /// An object literal: its properties in source order.
    Object(Vec<Prop>),
    Call(CallExpr),
    /// `object.property`, or `object[property]` where `computed`.
    Member { object: Box<Expr>, property: Box<Expr>, computed: bool },
    /// `target op value`
    Assign { op: AssignOp, target: Box<Pat>, value: Box<Expr> },
    /// A function expression.
    Function { params: Vec<Pat>, body: Vec<Stmt> },
}

/// The key of an object property.
#[derive(Debug, PartialEq, Eq)]
pub enum PropName {
    Ident(String),
    Str(String),
    /// A numeric key, held as a numeric literal is.
    Num(u64),
    /// `[expression]`
    Computed(Box<Expr>),
}

/// One property of an object literal.
#[derive(Debug, PartialEq, Eq)]
pub enum Prop {
    /// `key: value`
    KeyValue { key: PropName, value: Expr },
    /// `name`, short for `name: name`
    Shorthand(String),
    /// `key(params) { body }`
    Method { key: PropName, params: Vec<Pat>, body: Vec<Stmt> },
    /// `get key() { body }`
    Getter { key: PropName, body: Vec<Stmt> },
    /// `set key(param) { body }`
    Setter { key: PropName, param: Pat, body: Vec<Stmt> },
    /// `key = value` between braces. The grammar allows it in a binding
    /// pattern only; an object literal that holds one is not a legal
    /// expression.
    Assign { name: String, value: Expr },
}

/// A binding pattern or an assignment target.
#[derive(Debug, PartialEq, Eq)]
pub enum Pat {
    /// A plain identifier.
    Ident(String),
    /// `[a, b]`
    Array(Vec<Pat>),
    /// An expression in target position, such as `a.b` in `a.b = c`.
    Expr(Box<Expr>),
}

/// One binding of a variable declaration: `name`, or `name = init`.
#[derive(Debug, PartialEq, Eq)]
pub struct VarDeclarator {
    pub name: Pat,
    pub init: Option<Expr>,
}

/// A statement.
#[derive(Debug, PartialEq, Eq)]
pub enum Stmt {
    /// A variable declaration: its declarators in source order.
    Var(Vec<VarDeclarator>),
    /// An expression statement.
    Expr(Expr),
    /// `return`, or `return <expression>`
    Return(Option<Expr>),
}

/// One binding of an import declaration.
#[derive(Debug, PartialEq, Eq)]
pub enum ImportSpecifier {
    /// `* as local`
    Namespace { local: String },
    /// `local`, bound to the default export
    Default { local: String },
    /// `{ local }`, or `{ imported as local }` where `imported` is present
    Named { local: String, imported: Option<String> },
}

/// `import <specifiers> from "<source>"`
#[derive(Debug, PartialEq, Eq)]
pub struct ImportDecl {
    pub specifiers: Vec<ImportSpecifier>,
    pub source: String,
}

/// `export * from "<source>"`
#[derive(Debug, PartialEq, Eq)]
pub struct ExportAll {
    pub source: String,
}

/// One binding of an export declaration. Only `Named` is in the normal
/// form that the passes accept; the other two are sugar that an earlier
/// stage rewrites into an import followed by a named export.
#[derive(Debug, PartialEq, Eq)]
pub enum ExportSpecifier {
    /// `{ local }`, or `{ local as exported }`
    Named { local: String, exported: Option<String> },
    /// `name`, in `export name from "m"`
    Default { name: String },
    /// `* as name`
    Namespace { name: String },
}

/// `export { <specifiers> }`, with `from "<source>"` where it re-exports.
#[derive(Debug, PartialEq, Eq)]
pub struct NamedExport {
    pub specifiers: Vec<ExportSpecifier>,
    pub source: Option<String>,
}

/// A top-level item of a module.
#[derive(Debug, PartialEq, Eq)]
pub enum ModuleItem {
    Import(ImportDecl),
    ExportAll(ExportAll),
    ExportNamed(NamedExport),
    /// `export default <expression>`
    ExportDefaultExpr(Expr),
    Stmt(Stmt),
}

/// One source file: its top-level items in source order.
#[derive(Debug, PartialEq, Eq)]
pub struct Module {
    pub body: Vec<ModuleItem>,
}

// The views. Each mirrors its node, with `Seq` for `Vec` and `Text` for
// `String`; two nodes with the same view are the same program text.

pub struct CallView {
    pub callee: Box<ExprView>,
    pub args: Seq<ExprView>,
}

pub enum ExprView {
    Ident(Text),
    Str(Text),
    Num(u64),
    Array(Seq<ExprView>),
    Object(Seq<PropView>),
    Call(CallView),
    Member { object: Box<ExprView>, property: Box<ExprView>, computed: bool },
    Assign { op: AssignOp, target: Box<PatView>, value: Box<ExprView> },
    Function { params: Seq<PatView>, body: Seq<StmtView> },
}

pub enum PropNameView {
    Ident(Text),
    Str(Text),
    Num(u64),
    Computed(Box<ExprView>),
}

pub enum PropView {
    KeyValue { key: PropNameView, value: ExprView },
    Shorthand(Text),
    Method { key: PropNameView, params: Seq<PatView>, body: Seq<StmtView> },
    Getter { key: PropNameView, body: Seq<StmtView> },
    Setter { key: PropNameView, param: PatView, body: Seq<StmtView> },
    Assign { name: Text, value: ExprView },
}

pub enum PatView {
    Ident(Text),
    Array(Seq<PatView>),
    Expr(Box<ExprView>),
}

pub struct VarDeclaratorView {
    pub name: PatView,
    pub init: Option<ExprView>,
}

pub enum StmtView {
    Var(Seq<VarDeclaratorView>),
    Expr(ExprView),
    Return(Option<ExprView>),
}

/// The expression as contracts see it.
pub open spec fn expr_view(e: Expr) -> ExprView
    decreases e,
{
    match e {
        Expr::Ident(s) => ExprView::Ident(s@),
        Expr::Str(s) => ExprView::Str(s@),
        Expr::Num(n) => ExprView::Num(n),
        Expr::Array(es) => ExprView::Array(exprs_view(es@)),
        Expr::Object(ps) => ExprView::Object(props_view(ps@)),
        Expr::Call(c) => ExprView::Call(call_view(c)),
        Expr::Member { object, property, computed } => ExprView::Member {
            object: Box::new(expr_view(*object)),
            property: Box::new(expr_view(*property)),
            computed,
        },
        Expr::Assign { op, target, value } => ExprView::Assign {
            op,
            target: Box::new(pat_view(*target)),
            value: Box::new(expr_view(*value)),
        },
        Expr::Function { params, body } => ExprView::Function {
            params: pats_view(params@),
            body: stmts_view(body@),
        },
    }
}

pub open spec fn call_view(c: CallExpr) -> CallView
    decreases c,
{
    CallView { callee: Box::new(expr_view(*c.callee)), args: exprs_view(c.args@) }
}

pub open spec fn exprs_view(es: Seq<Expr>) -> Seq<ExprView>
    decreases es,
{
    Seq::new(es.len(), |i: int| if 0 <= i < es.len() { expr_view(es[i]) } else { arbitrary() })
}

pub open spec fn prop_name_view(k: PropName) -> PropNameView
    decreases k,
{
    match k {
        PropName::Ident(s) => PropNameView::Ident(s@),
        PropName::Str(s) => PropNameView::Str(s@),
        PropName::Num(n) => PropNameView::Num(n),
        PropName::Computed(e) => PropNameView::Computed(Box::new(expr_view(*e))),
    }
}

pub open spec fn prop_view(p: Prop) -> PropView
    decreases p,
{
    match p {
        Prop::KeyValue { key, value } => PropView::KeyValue {
            key: prop_name_view(key),
            value: expr_view(value),
        },
        Prop::Shorthand(s) => PropView::Shorthand(s@),
        Prop::Method { key, params, body } => PropView::Method {
            key: prop_name_view(key),
            params: pats_view(params@),
            body: stmts_view(body@),
        },
        Prop::Getter { key, body } => PropView::Getter {
            key: prop_name_view(key),
            body: stmts_view(body@),
        },
        Prop::Setter { key, param, body } => PropView::Setter {
            key: prop_name_view(key),
            param: pat_view(param),
            body: stmts_view(body@),
        },
        Prop::Assign { name, value } => PropView::Assign { name: name@, value: expr_view(value) },
    }
}

pub open spec fn props_view(ps: Seq<Prop>) -> Seq<PropView>
    decreases ps,
{
    Seq::new(ps.len(), |i: int| if 0 <= i < ps.len() { prop_view(ps[i]) } else { arbitrary() })
}

pub open spec fn pat_view(p: Pat) -> PatView
    decreases p,
{
    match p {
        Pat::Ident(s) => PatView::Ident(s@),
        Pat::Array(ps) => PatView::Array(pats_view(ps@)),
        Pat::Expr(e) => PatView::Expr(Box::new(expr_view(*e))),
    }
}

pub open spec fn pats_view(ps: Seq<Pat>) -> Seq<PatView>
    decreases ps,
{
    Seq::new(ps.len(), |i: int| if 0 <= i < ps.len() { pat_view(ps[i]) } else { arbitrary() })
}

pub open spec fn opt_expr_view(o: Option<Expr>) -> Option<ExprView>
    decreases o,
{
    match o {
        Some(e) => Some(expr_view(e)),
        None => None,
    }
}

pub open spec fn declarator_view(d: VarDeclarator) -> VarDeclaratorView
    decreases d,
{
    VarDeclaratorView { name: pat_view(d.name), init: opt_expr_view(d.init) }
}

pub open spec fn declarators_view(ds: Seq<VarDeclarator>) -> Seq<VarDeclaratorView>
    decreases ds,
{
    Seq::new(
        ds.len(),
        |i: int| if 0 <= i < ds.len() { declarator_view(ds[i]) } else { arbitrary() },
    )
}

pub open spec fn stmt_view(s: Stmt) -> StmtView
    decreases s,
{
    match s {
        Stmt::Var(ds) => StmtView::Var(declarators_view(ds@)),
        Stmt::Expr(e) => StmtView::Expr(expr_view(e)),
        Stmt::Return(o) => StmtView::Return(opt_expr_view(o)),
    }
}

pub open spec fn stmts_view(ss: Seq<Stmt>) -> Seq<StmtView>
    decreases ss,
{
    Seq::new(ss.len(), |i: int| if 0 <= i < ss.len() { stmt_view(ss[i]) } else { arbitrary() })
}

impl View for Expr {
    type V = ExprView;

    open spec fn view(&self) -> ExprView {
        expr_view(*self)
    }
}

impl View for CallExpr {
    type V = CallView;

    open spec fn view(&self) -> CallView {
        call_view(*self)
    }
}

impl View for PropName {
    type V = PropNameView;

    open spec fn view(&self) -> PropNameView {
        prop_name_view(*self)
    }
}

impl View for Prop {
    type V = PropView;

    open spec fn view(&self) -> PropView {
        prop_view(*self)
    }
}

impl View for Pat {
    type V = PatView;

    open spec fn view(&self) -> PatView {
        pat_view(*self)
    }
}

impl View for VarDeclarator {
    type V = VarDeclaratorView;

    open spec fn view(&self) -> VarDeclaratorView {
        declarator_view(*self)
    }
}

impl View for Stmt {
    type V = StmtView;

    open spec fn view(&self) -> StmtView {
        stmt_view(*self)
    }
}

pub enum ImportSpecifierView {
    Namespace { local: Text },
    Default { local: Text },
    Named { local: Text, imported: Option<Text> },
}

pub struct ImportDeclView {
    pub specifiers: Seq<ImportSpecifierView>,
    pub source: Text,
}

pub struct ExportAllView {
    pub source: Text,
}

pub enum ExportSpecifierView {
    Named { local: Text, exported: Option<Text> },
    Default { name: Text },
    Namespace { name: Text },
}

pub struct NamedExportView {
    pub specifiers: Seq<ExportSpecifierView>,
    pub source: Option<Text>,
}

pub enum ModuleItemView {
    Import(ImportDeclView),
    ExportAll(ExportAllView),
    ExportNamed(NamedExportView),
    ExportDefaultExpr(ExprView),
    Stmt(StmtView),
}

pub struct ModuleView {
    pub body: Seq<ModuleItemView>,
}

pub open spec fn opt_text_view(o: Option<String>) -> Option<Text> {
    match o {
        Some(s) => Some(s@),
        None => None,
    }
}

pub open spec fn import_specifier_view(s: ImportSpecifier) -> ImportSpecifierView {
    match s {
        ImportSpecifier::Namespace { local } => ImportSpecifierView::Namespace { local: local@ },
        ImportSpecifier::Default { local } => ImportSpecifierView::Default { local: local@ },
        ImportSpecifier::Named { local, imported } => ImportSpecifierView::Named {
            local: local@,
            imported: opt_text_view(imported),
        },
    }
}

pub open spec fn export_specifier_view(s: ExportSpecifier) -> ExportSpecifierView {
    match s {
        ExportSpecifier::Named { local, exported } => ExportSpecifierView::Named {
            local: local@,
            exported: opt_text_view(exported),
        },
        ExportSpecifier::Default { name } => ExportSpecifierView::Default { name: name@ },
        ExportSpecifier::Namespace { name } => ExportSpecifierView::Namespace { name: name@ },
    }
}

pub open spec fn item_view(it: ModuleItem) -> ModuleItemView {
    match it {
        ModuleItem::Import(d) => ModuleItemView::Import(d@),
        ModuleItem::ExportAll(d) => ModuleItemView::ExportAll(d@),
        ModuleItem::ExportNamed(d) => ModuleItemView::ExportNamed(d@),
        ModuleItem::ExportDefaultExpr(e) => ModuleItemView::ExportDefaultExpr(e@),
        ModuleItem::Stmt(s) => ModuleItemView::Stmt(s@),
    }
}

pub open spec fn items_view(items: Seq<ModuleItem>) -> Seq<ModuleItemView> {
    Seq::new(items.len(), |i: int| item_view(items[i]))
}

impl View for ImportSpecifier {
    type V = ImportSpecifierView;

    open spec fn view(&self) -> ImportSpecifierView {
        import_specifier_view(*self)
    }
}

impl View for ImportDecl {
    type V = ImportDeclView;

    open spec fn view(&self) -> ImportDeclView {
        ImportDeclView {
            specifiers: Seq::new(self.specifiers@.len(), |i: int| self.specifiers@[i]@),
            source: self.source@,
        }
    }
}

impl View for ExportAll {
    type V = ExportAllView;

    open spec fn view(&self) -> ExportAllView {
        ExportAllView { source: self.source@ }
    }
}

impl View for ExportSpecifier {
    type V = ExportSpecifierView;

    open spec fn view(&self) -> ExportSpecifierView {
        export_specifier_view(*self)
    }
}

impl View for NamedExport {
    type V = NamedExportView;

    open spec fn view(&self) -> NamedExportView {
        NamedExportView {
            specifiers: Seq::new(self.specifiers@.len(), |i: int| self.specifiers@[i]@),
            source: opt_text_view(self.source),
        }
    }
}

impl View for ModuleItem {
    type V = ModuleItemView;

    open spec fn view(&self) -> ModuleItemView {
        item_view(*self)
    }
}

impl View for Module {
    type V = ModuleView;

    open spec fn view(&self) -> ModuleView {
        ModuleView { body: items_view(self.body@) }
    }
}

} // verus!
