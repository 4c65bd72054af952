//! The import classifier: one read-only walk over a module's declarations
//! that decides, for each module specifier they name, which interop helper
//! its importers need.

use vstd::prelude::*;
use crate::node::{
    ExportAll, ExportAllView, ExportSpecifier, ExportSpecifierView, ImportDecl, ImportDeclView,
    ImportSpecifier, ImportSpecifierView, Module, ModuleItem, ModuleItemView, ModuleView,
    NamedExport, NamedExportView, Text,
};
use crate::text::is_text;
use crate::scope::{InteropKind, Scope, with_default, with_wildcard};

verus! {

/// The module that holds the runtime helpers themselves. A namespace import
/// of it asks for no helper.
pub open spec fn helpers_module() -> Text {
    "@swc/helpers"@
}

/// The name under which a module's default export is imported or exported.
pub open spec fn default_name() -> Text {
    "default"@
}

/// The name that a specifier asks the module for: for a named specifier
/// the name before `as` where there is one, else the local name.
pub open spec fn imported_name(s: ImportSpecifierView) -> Text {
    match s {
        ImportSpecifierView::Namespace { local } => local,
        ImportSpecifierView::Default { local } => local,
        ImportSpecifierView::Named { local, imported } => match imported {
            Some(name) => name,
            None => local,
        },
    }
}

/// The declaration is `import * as x from ".."` and nothing more.
pub open spec fn is_lone_namespace(d: ImportDeclView) -> bool {
    d.specifiers.len() == 1 && d.specifiers[0] is Namespace
}

/// What the grammar grants of an import declaration: a namespace specifier
/// stands alone.
pub open spec fn import_is_normal(d: ImportDeclView) -> bool {
    d.specifiers.len() > 1 ==> forall|i: int|
        0 <= i < d.specifiers.len() ==> !(#[trigger] d.specifiers[i] is Namespace)
}

/// What earlier stages grant of an export declaration: every specifier is
/// a plain named one.
pub open spec fn export_is_normal(e: NamedExportView) -> bool {
    forall|i: int| 0 <= i < e.specifiers.len() ==> #[trigger] e.specifiers[i] is Named
}

pub open spec fn item_is_normal(it: ModuleItemView) -> bool {
    match it {
        ModuleItemView::Import(d) => import_is_normal(d),
        ModuleItemView::ExportNamed(e) => export_is_normal(e),
        _ => true,
    }
}

/// Every declaration of the module is in the form that the classifier
/// accepts.
pub open spec fn declarations_are_normal(m: ModuleView) -> bool {
    forall|i: int| 0 <= i < m.body.len() ==> item_is_normal(#[trigger] m.body[i])
}

/// The store after one specifier of an import from `source` that has
/// several specifiers, or one that is no namespace.
pub open spec fn after_import_specifier(
    m: Map<Text, InteropKind>,
    source: Text,
    s: ImportSpecifierView,
) -> Map<Text, InteropKind> {
    match s {
        ImportSpecifierView::Namespace { .. } => m,
        ImportSpecifierView::Default { .. } => with_default(m, source),
        ImportSpecifierView::Named { .. } => if imported_name(s) == default_name() {
            with_default(m, source)
        } else {
            with_wildcard(m, source)
        },
    }
}

pub open spec fn after_import_specifiers(
    m: Map<Text, InteropKind>,
    source: Text,
    specifiers: Seq<ImportSpecifierView>,
) -> Map<Text, InteropKind>
    decreases specifiers.len(),
{
    if specifiers.len() == 0 {
        m
    } else {
        after_import_specifier(
            after_import_specifiers(m, source, specifiers.drop_last()),
            source,
            specifiers.last(),
        )
    }
}

/// The store after an import declaration.
pub open spec fn after_import(m: Map<Text, InteropKind>, d: ImportDeclView) -> Map<
    Text,
    InteropKind,
> {
    if d.specifiers.len() == 0 {
        m
    } else if is_lone_namespace(d) {
        if d.source == helpers_module() {
            m
        } else {
            with_wildcard(m, d.source)
        }
    } else {
        after_import_specifiers(m, d.source, d.specifiers)
    }
}

/// The store after `export * from ".."`.
pub open spec fn after_export_all(m: Map<Text, InteropKind>, e: ExportAllView) -> Map<
    Text,
    InteropKind,
> {
    with_wildcard(m, e.source)
}

/// The store after one specifier of a re-export from `source`.
pub open spec fn after_export_specifier(
    m: Map<Text, InteropKind>,
    source: Text,
    s: ExportSpecifierView,
) -> Map<Text, InteropKind> {
    match s {
        ExportSpecifierView::Named { local, .. } => if local == default_name() {
            with_default(m, source)
        } else {
            with_wildcard(m, source)
        },
        _ => m,
    }
}

pub open spec fn after_export_specifiers(
    m: Map<Text, InteropKind>,
    source: Text,
    specifiers: Seq<ExportSpecifierView>,
) -> Map<Text, InteropKind>
    decreases specifiers.len(),
{
    if specifiers.len() == 0 {
        m
    } else {
        after_export_specifier(
            after_export_specifiers(m, source, specifiers.drop_last()),
            source,
            specifiers.last(),
        )
    }
}

/// The store after an export declaration: unchanged unless it re-exports.
pub open spec fn after_named_export(m: Map<Text, InteropKind>, e: NamedExportView) -> Map<
    Text,
    InteropKind,
> {
    match e.source {
        Some(source) => after_export_specifiers(m, source, e.specifiers),
        None => m,
    }
}

pub open spec fn after_item(m: Map<Text, InteropKind>, it: ModuleItemView) -> Map<
    Text,
    InteropKind,
> {
    match it {
        ModuleItemView::Import(d) => after_import(m, d),
        ModuleItemView::ExportAll(e) => after_export_all(m, e),
        ModuleItemView::ExportNamed(e) => after_named_export(m, e),
        _ => m,
    }
}

/// The store after the items of a module, taken in source order.
pub open spec fn after_items(m: Map<Text, InteropKind>, items: Seq<ModuleItemView>) -> Map<
    Text,
    InteropKind,
>
    decreases items.len(),
{
    if items.len() == 0 {
        m
    } else {
        after_item(after_items(m, items.drop_last()), items.last())
    }
}

/// What one walk over `module` finds, starting from nothing.
pub open spec fn classify(module: ModuleView) -> Map<Text, InteropKind> {
    after_items(Map::empty(), module.body)
}

/// A runtime helper that a module can ask for.
#[derive(Clone, Copy, Debug, PartialEq, Eq, Structural)]
pub enum Helper {
    InteropRequireDefault,
    InteropRequireWildcard,
}

pub open spec fn helper_for(kind: InteropKind) -> Helper {
    match kind {
        InteropKind::Default => Helper::InteropRequireDefault,
        InteropKind::Wildcard => Helper::InteropRequireWildcard,
    }
}

impl Helper {
    /// The helper that serves importers of the given kind.
    pub fn for_kind(kind: InteropKind) -> (h: Helper)
        ensures
            h == helper_for(kind),
    {
        match kind {
            InteropKind::Default => Helper::InteropRequireDefault,
            InteropKind::Wildcard => Helper::InteropRequireWildcard,
        }
    }

    /// The name by which the helper registry knows the helper.
    pub fn name(&self) -> (s: &'static str)
        ensures
            s@ == match *self {
                Helper::InteropRequireDefault => "interop_require_default"@,
                Helper::InteropRequireWildcard => "interop_require_wildcard"@,
            },
    {
        match self {
            Helper::InteropRequireDefault => "interop_require_default",
            Helper::InteropRequireWildcard => "interop_require_wildcard",
        }
    }
}

/// A request to the helper registry: the module `specifier` needs `helper`.
#[derive(Debug, PartialEq, Eq)]
pub struct HelperRequest {
    pub specifier: String,
    pub helper: Helper,
}

/// `requests` asks once for each specifier of `m`, and for the helper that
/// its kind calls for.
pub open spec fn requests_cover(requests: Seq<HelperRequest>, m: Map<Text, InteropKind>) -> bool {
    &&& forall|i: int, j: int|
        0 <= i < j < requests.len() ==> requests[i].specifier@ != requests[j].specifier@
    &&& forall|i: int|
        0 <= i < requests.len() ==> m.contains_key(#[trigger] requests[i].specifier@)
            && requests[i].helper == helper_for(m[requests[i].specifier@])
    &&& forall|s: Text|
        m.contains_key(s) ==> exists|i: int|
            0 <= i < requests.len() && #[trigger] requests[i].specifier@ == s
}

impl ImportDecl {
    /// Whether a namespace specifier, if there is one, stands alone.
    pub fn is_normal(&self) -> (r: bool)
        ensures
            r == import_is_normal(self@),
    {
        if self.specifiers.len() <= 1 {
            return true;
        }
        let mut i: usize = 0;
        while i < self.specifiers.len()
            invariant
                1 < self.specifiers.len() == self@.specifiers.len(),
                i <= self.specifiers.len(),
                forall|j: int| 0 <= j < i ==> !(#[trigger] self@.specifiers[j] is Namespace),
            decreases self.specifiers.len() - i,
        {
            if let ImportSpecifier::Namespace { .. } = &self.specifiers[i] {
                assert(self@.specifiers[i as int] is Namespace);
                return false;
            }
            assert(!(self@.specifiers[i as int] is Namespace));
            i += 1;
        }
        true
    }
}

impl NamedExport {
    /// Whether every specifier is a plain named one.
    pub fn is_normal(&self) -> (r: bool)
        ensures
            r == export_is_normal(self@),
    {
        let mut i: usize = 0;
        while i < self.specifiers.len()
            invariant
                i <= self.specifiers.len(),
                forall|j: int| 0 <= j < i ==> #[trigger] self@.specifiers[j] is Named,
            decreases self.specifiers.len() - i,
        {
            if let ExportSpecifier::Named { .. } = &self.specifiers[i] {
                assert(self@.specifiers[i as int] is Named);
            } else {
                assert(!(self@.specifiers[i as int] is Named));
                return false;
            }
            i += 1;
        }
        true
    }
}

impl Module {
    /// Whether the classifier accepts every declaration of the module.
    pub fn declarations_are_normal(&self) -> (r: bool)
        ensures
            r == declarations_are_normal(self@),
    {
        let mut i: usize = 0;
        while i < self.body.len()
            invariant
                i <= self.body.len(),
                forall|j: int| 0 <= j < i ==> item_is_normal(#[trigger] self@.body[j]),
            decreases self.body.len() - i,
        {
            let ok = match &self.body[i] {
                ModuleItem::Import(d) => d.is_normal(),
                ModuleItem::ExportNamed(e) => e.is_normal(),
                _ => true,
            };
            assert(ok == item_is_normal(self@.body[i as int]));
            if !ok {
                return false;
            }
            i += 1;
        }
        true
    }
}

/// The classifier. Its store starts empty, gathers facts while a module is
/// walked, and is emptied when the requests are handed out.
pub struct ImportAnalyzer {
    pub scope: Scope,
}

/// A classifier that has seen nothing yet.
pub fn import_analyzer() -> (a: ImportAnalyzer)
    ensures
        a.wf(),
        a@ == Map::<Text, InteropKind>::empty(),
{
    ImportAnalyzer { scope: Scope::new() }
}

impl View for ImportAnalyzer {
    type V = Map<Text, InteropKind>;

    open spec fn view(&self) -> Map<Text, InteropKind> {
        self.scope@
    }
}

impl ImportAnalyzer {
    pub open spec fn wf(&self) -> bool {
        self.scope.wf()
    }

    /// Takes note of `export * from ".."`.
    pub fn visit_export_all(&mut self, export: &ExportAll)
        requires
            old(self).wf(),
        ensures
            final(self).wf(),
            final(self)@ == after_export_all(old(self)@, export@),
    {
        self.scope.mark_wildcard(&export.source);
    }

    /// Takes note of an export declaration.
    pub fn visit_named_export(&mut self, export: &NamedExport)
        requires
            old(self).wf(),
            export_is_normal(export@),
        ensures
            final(self).wf(),
            final(self)@ == after_named_export(old(self)@, export@),
    {
        let source = match &export.source {
            Some(source) => source,
            None => {
                return ;
            },
        };
        let ghost start = self@;
        let ghost specifiers = export@.specifiers;
        let mut i: usize = 0;
        while i < export.specifiers.len()
            invariant
                self.wf(),
                i <= export.specifiers.len(),
                specifiers == export@.specifiers,
                export_is_normal(export@),
                self@ == after_export_specifiers(start, source@, specifiers.take(i as int)),
            decreases export.specifiers.len() - i,
        {
            proof {
                assert(specifiers.take(i + 1).drop_last() =~= specifiers.take(i as int));
                assert(specifiers.take(i + 1).last() == specifiers[i as int]);
                assert(specifiers[i as int] is Named);
            }
            match &export.specifiers[i] {
                ExportSpecifier::Named { local, .. } => {
                    if is_text(local, "default") {
                        self.scope.mark_default(source);
                    } else {
                        self.scope.mark_wildcard(source);
                    }
                },
                _ => {},
            }
            i += 1;
        }
        assert(specifiers.take(i as int) =~= specifiers);
    }

    /// Takes note of an import declaration.
    pub fn visit_import(&mut self, import: &ImportDecl)
        requires
            old(self).wf(),
            import_is_normal(import@),
        ensures
            final(self).wf(),
            final(self)@ == after_import(old(self)@, import@),
    {
        let n = import.specifiers.len();
        if n == 0 {
            return ;
        }
        if n == 1 {
            if let ImportSpecifier::Namespace { .. } = &import.specifiers[0] {
                assert(import@.specifiers[0] is Namespace);
                if !is_text(&import.source, "@swc/helpers") {
                    self.scope.mark_wildcard(&import.source);
                }
                return ;
            }
            assert(!(import@.specifiers[0] is Namespace));
        }
        let ghost start = self@;
        let ghost specifiers = import@.specifiers;
        let mut i: usize = 0;
        while i < import.specifiers.len()
            invariant
                self.wf(),
                i <= import.specifiers.len(),
                specifiers == import@.specifiers,
                self@ == after_import_specifiers(start, import.source@, specifiers.take(i as int)),
            decreases import.specifiers.len() - i,
        {
            proof {
                assert(specifiers.take(i + 1).drop_last() =~= specifiers.take(i as int));
                assert(specifiers.take(i + 1).last() == specifiers[i as int]);
            }
            match &import.specifiers[i] {
                ImportSpecifier::Namespace { .. } => {},
                ImportSpecifier::Default { .. } => {
                    self.scope.mark_default(&import.source);
                },
                ImportSpecifier::Named { local, imported } => {
                    let name = match imported {
                        Some(name) => name,
                        None => local,
                    };
                    if is_text(name, "default") {
                        self.scope.mark_default(&import.source);
                    } else {
                        self.scope.mark_wildcard(&import.source);
                    }
                },
            }
            i += 1;
        }
        assert(specifiers.take(i as int) =~= specifiers);
    }

    /// Walks the items of `module` in source order and takes note of each
    /// import and export declaration.
    pub fn visit_module(&mut self, module: &Module)
        requires
            old(self).wf(),
            declarations_are_normal(module@),
        ensures
            final(self).wf(),
            final(self)@ == after_items(old(self)@, module@.body),
    {
        let ghost start = self@;
        let ghost items = module@.body;
        let mut i: usize = 0;
        while i < module.body.len()
            invariant
                self.wf(),
                i <= module.body.len(),
                items == module@.body,
                declarations_are_normal(module@),
                self@ == after_items(start, items.take(i as int)),
            decreases module.body.len() - i,
        {
            proof {
                assert(items.take(i + 1).drop_last() =~= items.take(i as int));
                assert(items.take(i + 1).last() == items[i as int]);
                assert(item_is_normal(items[i as int]));
            }
            match &module.body[i] {
                ModuleItem::Import(d) => self.visit_import(d),
                ModuleItem::ExportAll(e) => self.visit_export_all(e),
                ModuleItem::ExportNamed(e) => self.visit_named_export(e),
                _ => {},
            }
            i += 1;
        }
        assert(items.take(i as int) =~= items);
    }

    /// Runs the pass over one module: walks it, then empties the store and
    /// returns one helper request for each specifier that was classified.
    pub fn fold(&mut self, module: &Module) -> (requests: Vec<HelperRequest>)
        requires
            old(self).wf(),
            declarations_are_normal(module@),
        ensures
            final(self).wf(),
            final(self)@ == Map::<Text, InteropKind>::empty(),
            requests_cover(requests@, after_items(old(self)@, module@.body)),
    {
        self.visit_module(module);
        let ghost found = self@;
        let entries = self.scope.drain();
        let ghost listed = entries@;
        let mut requests: Vec<HelperRequest> = Vec::new();
        for entry in it: entries
            invariant
                it.seq() == listed,
                requests.len() == it.index(),
                forall|j: int|
                    #![trigger requests[j]]
                    0 <= j < requests.len() ==> requests[j].specifier@ == it.seq()[j].0@
                        && requests[j].helper == helper_for(it.seq()[j].1),
        {
            let ghost before = requests@;
            requests.push(HelperRequest { specifier: entry.0, helper: Helper::for_kind(entry.1) });
            assert forall|j: int| 0 <= j < before.len() implies requests[j] == before[j] by {}
        }
        proof {
            assert forall|s: Text| found.contains_key(s) implies exists|i: int|
                0 <= i < requests.len() && #[trigger] requests[i].specifier@ == s by {
                let i = choose|i: int| 0 <= i < listed.len() && #[trigger] listed[i].0@ == s;
                assert(requests[i].specifier@ == s);
            }
        }
        requests
    }
}

} // verus!
