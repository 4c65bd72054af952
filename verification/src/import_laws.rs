//! What the classifier's result means: which uses of a specifier lead to
//! which kind.

use vstd::prelude::*;
use crate::import_analysis::{
    after_export_specifier, after_export_specifiers, after_import_specifier,
    after_import_specifiers, after_item, after_items, classify, default_name,
    helpers_module, imported_name, is_lone_namespace,
};
use crate::node::{
    ExportSpecifierView, ImportDeclView, ImportSpecifierView, ModuleItemView, ModuleView,
    NamedExportView, Text,
};
use crate::scope::InteropKind;

verus! {

/// A named import of anything but the default export.
pub open spec fn import_specifier_needs_wildcard(s: ImportSpecifierView) -> bool {
    s is Named && imported_name(s) != default_name()
}

/// An import of the default export, in either spelling.
pub open spec fn import_specifier_needs_default(s: ImportSpecifierView) -> bool {
    s is Default || (s is Named && imported_name(s) == default_name())
}

/// The declaration uses its module as a namespace: it imports the
/// namespace of a module other than the helpers' own, or one of several
/// specifiers is a named import of something other than the default export.
pub open spec fn import_needs_wildcard(d: ImportDeclView) -> bool {
    if is_lone_namespace(d) {
        d.source != helpers_module()
    } else {
        exists|i: int|
            0 <= i < d.specifiers.len() && import_specifier_needs_wildcard(
                #[trigger] d.specifiers[i],
            )
    }
}

/// The declaration imports the default export of its module.
pub open spec fn import_needs_default(d: ImportDeclView) -> bool {
    !is_lone_namespace(d) && exists|i: int|
        0 <= i < d.specifiers.len() && import_specifier_needs_default(#[trigger] d.specifiers[i])
}

/// A re-export of anything but the default export.
pub open spec fn export_specifier_needs_wildcard(s: ExportSpecifierView) -> bool {
    s matches ExportSpecifierView::Named { local, .. } && local != default_name()
}

/// A re-export of the default export.
pub open spec fn export_specifier_needs_default(s: ExportSpecifierView) -> bool {
    s matches ExportSpecifierView::Named { local, .. } && local == default_name()
}

pub open spec fn export_needs_wildcard(e: NamedExportView) -> bool {
    exists|i: int|
        0 <= i < e.specifiers.len() && export_specifier_needs_wildcard(#[trigger] e.specifiers[i])
}

pub open spec fn export_needs_default(e: NamedExportView) -> bool {
    exists|i: int|
        0 <= i < e.specifiers.len() && export_specifier_needs_default(#[trigger] e.specifiers[i])
}

/// The item uses the module `specifier` as a namespace.
pub open spec fn needs_wildcard(it: ModuleItemView, specifier: Text) -> bool {
    match it {
        ModuleItemView::Import(d) => d.source == specifier && import_needs_wildcard(d),
        ModuleItemView::ExportAll(e) => e.source == specifier,
        ModuleItemView::ExportNamed(e) => e.source == Some(specifier) && export_needs_wildcard(e),
        _ => false,
    }
}

/// The item uses the default export of the module `specifier`.
pub open spec fn needs_default(it: ModuleItemView, specifier: Text) -> bool {
    match it {
        ModuleItemView::Import(d) => d.source == specifier && import_needs_default(d),
        ModuleItemView::ExportNamed(e) => e.source == Some(specifier) && export_needs_default(e),
        _ => false,
    }
}

pub open spec fn some_needs_wildcard(items: Seq<ModuleItemView>, specifier: Text) -> bool {
    exists|i: int| 0 <= i < items.len() && needs_wildcard(#[trigger] items[i], specifier)
}

pub open spec fn some_needs_default(items: Seq<ModuleItemView>, specifier: Text) -> bool {
    exists|i: int| 0 <= i < items.len() && needs_default(#[trigger] items[i], specifier)
}

/// The store holds `Wildcard` for `specifier`.
pub open spec fn is_wildcard(m: Map<Text, InteropKind>, specifier: Text) -> bool {
    m.contains_key(specifier) && m[specifier] == InteropKind::Wildcard
}

/// The store holds `Default` for `specifier`.
pub open spec fn is_default(m: Map<Text, InteropKind>, specifier: Text) -> bool {
    m.contains_key(specifier) && m[specifier] == InteropKind::Default
}

proof fn lemma_import_specifiers(
    m: Map<Text, InteropKind>,
    source: Text,
    specifiers: Seq<ImportSpecifierView>,
    specifier: Text,
)
    ensures
        is_wildcard(after_import_specifiers(m, source, specifiers), specifier) <==> (is_wildcard(
            m,
            specifier,
        ) || (source == specifier && exists|i: int|
            0 <= i < specifiers.len() && import_specifier_needs_wildcard(
                #[trigger] specifiers[i],
            ))),
        after_import_specifiers(m, source, specifiers).contains_key(specifier) <==> (
        m.contains_key(specifier) || (source == specifier && exists|i: int|
            0 <= i < specifiers.len() && (import_specifier_needs_wildcard(#[trigger] specifiers[i])
                || import_specifier_needs_default(specifiers[i])))),
    decreases specifiers.len(),
{
    if specifiers.len() > 0 {
        let front = specifiers.drop_last();
        let last = specifiers.last();
        lemma_import_specifiers(m, source, front, specifier);
        let mid = after_import_specifiers(m, source, front);
        let end = after_import_specifier(mid, source, last);
        assert(end == after_import_specifiers(m, source, specifiers));
        assert forall|i: int| 0 <= i < front.len() implies front[i] == specifiers[i] by {}
        assert(last == specifiers[specifiers.len() - 1]);
        if source == specifier {
            if exists|i: int|
                0 <= i < specifiers.len() && import_specifier_needs_wildcard(
                    #[trigger] specifiers[i],
                ) {
                let i = choose|i: int|
                    0 <= i < specifiers.len() && import_specifier_needs_wildcard(
                        #[trigger] specifiers[i],
                    );
                if i < front.len() {
                    assert(import_specifier_needs_wildcard(front[i]));
                }
            }
            if exists|i: int|
                0 <= i < specifiers.len() && (import_specifier_needs_wildcard(
                    #[trigger] specifiers[i],
                ) || import_specifier_needs_default(specifiers[i])) {
                let i = choose|i: int|
                    0 <= i < specifiers.len() && (import_specifier_needs_wildcard(
                        #[trigger] specifiers[i],
                    ) || import_specifier_needs_default(specifiers[i]));
                if i < front.len() {
                    assert(import_specifier_needs_wildcard(front[i])
                        || import_specifier_needs_default(front[i]));
                }
            }
        }
    }
}

proof fn lemma_export_specifiers(
    m: Map<Text, InteropKind>,
    source: Text,
    specifiers: Seq<ExportSpecifierView>,
    specifier: Text,
)
    ensures
        is_wildcard(after_export_specifiers(m, source, specifiers), specifier) <==> (is_wildcard(
            m,
            specifier,
        ) || (source == specifier && exists|i: int|
            0 <= i < specifiers.len() && export_specifier_needs_wildcard(
                #[trigger] specifiers[i],
            ))),
        after_export_specifiers(m, source, specifiers).contains_key(specifier) <==> (
        m.contains_key(specifier) || (source == specifier && exists|i: int|
            0 <= i < specifiers.len() && (export_specifier_needs_wildcard(#[trigger] specifiers[i])
                || export_specifier_needs_default(specifiers[i])))),
    decreases specifiers.len(),
{
    if specifiers.len() > 0 {
        let front = specifiers.drop_last();
        let last = specifiers.last();
        lemma_export_specifiers(m, source, front, specifier);
        let mid = after_export_specifiers(m, source, front);
        let end = after_export_specifier(mid, source, last);
        assert(end == after_export_specifiers(m, source, specifiers));
        assert forall|i: int| 0 <= i < front.len() implies front[i] == specifiers[i] by {}
        assert(last == specifiers[specifiers.len() - 1]);
        if source == specifier {
            if exists|i: int|
                0 <= i < specifiers.len() && export_specifier_needs_wildcard(
                    #[trigger] specifiers[i],
                ) {
                let i = choose|i: int|
                    0 <= i < specifiers.len() && export_specifier_needs_wildcard(
                        #[trigger] specifiers[i],
                    );
                if i < front.len() {
                    assert(export_specifier_needs_wildcard(front[i]));
                }
            }
            if exists|i: int|
                0 <= i < specifiers.len() && (export_specifier_needs_wildcard(
                    #[trigger] specifiers[i],
                ) || export_specifier_needs_default(specifiers[i])) {
                let i = choose|i: int|
                    0 <= i < specifiers.len() && (export_specifier_needs_wildcard(
                        #[trigger] specifiers[i],
                    ) || export_specifier_needs_default(specifiers[i]));
                if i < front.len() {
                    assert(export_specifier_needs_wildcard(front[i])
                        || export_specifier_needs_default(front[i]));
                }
            }
        }
    }
}

/// One item changes the store for `specifier` only as far as it uses that
/// module: a namespace use makes the entry `Wildcard`, a default use makes
/// an entry where there was none, and nothing else happens.
pub proof fn lemma_item(m: Map<Text, InteropKind>, it: ModuleItemView, specifier: Text)
    ensures
        is_wildcard(after_item(m, it), specifier) <==> (is_wildcard(m, specifier)
            || needs_wildcard(it, specifier)),
        after_item(m, it).contains_key(specifier) <==> (m.contains_key(specifier)
            || needs_wildcard(it, specifier) || needs_default(it, specifier)),
{
    match it {
        ModuleItemView::Import(d) => {
            if d.specifiers.len() == 0 {
            } else if is_lone_namespace(d) {
                assert(!import_specifier_needs_default(d.specifiers[0]));
            } else {
                lemma_import_specifiers(m, d.source, d.specifiers, specifier);
            }
        },
        ModuleItemView::ExportNamed(e) => {
            match e.source {
                Some(source) => {
                    lemma_export_specifiers(m, source, e.specifiers, specifier);
                },
                None => {},
            }
        },
        _ => {},
    }
}

/// The same, for the items of a module taken in order.
pub proof fn lemma_items(m: Map<Text, InteropKind>, items: Seq<ModuleItemView>, specifier: Text)
    ensures
        is_wildcard(after_items(m, items), specifier) <==> (is_wildcard(m, specifier)
            || some_needs_wildcard(items, specifier)),
        after_items(m, items).contains_key(specifier) <==> (m.contains_key(specifier)
            || some_needs_wildcard(items, specifier) || some_needs_default(items, specifier)),
    decreases items.len(),
{
    if items.len() > 0 {
        let front = items.drop_last();
        let last = items.last();
        lemma_items(m, front, specifier);
        lemma_item(after_items(m, front), last, specifier);
        assert forall|i: int| 0 <= i < front.len() implies front[i] == items[i] by {}
        assert(last == items[items.len() - 1]);
        if some_needs_wildcard(items, specifier) {
            let i = choose|i: int|
                0 <= i < items.len() && needs_wildcard(#[trigger] items[i], specifier);
            if i < front.len() {
                assert(needs_wildcard(front[i], specifier));
            }
        }
        if some_needs_default(items, specifier) {
            let i = choose|i: int|
                0 <= i < items.len() && needs_default(#[trigger] items[i], specifier);
            if i < front.len() {
                assert(needs_default(front[i], specifier));
            }
        }
    }
}

/// The kind that a walk over a module gives a specifier: `Wildcard` if and
/// only if some declaration uses the module as a namespace; `Default` if and
/// only if none does and some declaration uses its default export; and no
/// entry if and only if no declaration uses it in either way.
pub proof fn law_classification(module: ModuleView, specifier: Text)
    ensures
        is_wildcard(classify(module), specifier) <==> some_needs_wildcard(module.body, specifier),
        is_default(classify(module), specifier) <==> (!some_needs_wildcard(module.body, specifier)
            && some_needs_default(module.body, specifier)),
        !classify(module).contains_key(specifier) <==> (!some_needs_wildcard(
            module.body,
            specifier,
        ) && !some_needs_default(module.body, specifier)),
{
    lemma_items(Map::empty(), module.body, specifier);
}

/// Within one walk an entry is never taken back and `Wildcard` is never
/// lowered: whatever items follow, a specifier that had an entry keeps one,
/// and one that was `Wildcard` stays so.
pub proof fn law_wildcard_is_kept(
    m: Map<Text, InteropKind>,
    items: Seq<ModuleItemView>,
    specifier: Text,
)
    ensures
        m.contains_key(specifier) ==> after_items(m, items).contains_key(specifier),
        is_wildcard(m, specifier) ==> is_wildcard(after_items(m, items), specifier),
{
    lemma_items(m, items, specifier);
}

} // verus!
