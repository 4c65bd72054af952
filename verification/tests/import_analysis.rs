use ecma_passes::import_analysis::{import_analyzer, Helper, HelperRequest};
use ecma_passes::node::{
    ExportAll, ExportSpecifier, ImportDecl, ImportSpecifier, Module, ModuleItem, NamedExport,
};
use ecma_passes::scope::{InteropKind, Scope};

fn namespace(local: &str) -> ImportSpecifier {
    ImportSpecifier::Namespace { local: local.to_string() }
}

fn default(local: &str) -> ImportSpecifier {
    ImportSpecifier::Default { local: local.to_string() }
}

fn named(local: &str) -> ImportSpecifier {
    ImportSpecifier::Named { local: local.to_string(), imported: None }
}

fn named_as(imported: &str, local: &str) -> ImportSpecifier {
    ImportSpecifier::Named { local: local.to_string(), imported: Some(imported.to_string()) }
}

fn import(specifiers: Vec<ImportSpecifier>, source: &str) -> ModuleItem {
    ModuleItem::Import(ImportDecl { specifiers, source: source.to_string() })
}

fn export_all(source: &str) -> ModuleItem {
    ModuleItem::ExportAll(ExportAll { source: source.to_string() })
}

fn export(locals: &[&str], source: Option<&str>) -> ModuleItem {
    ModuleItem::ExportNamed(NamedExport {
        specifiers: locals
            .iter()
            .map(|l| ExportSpecifier::Named { local: l.to_string(), exported: None })
            .collect(),
        source: source.map(|s| s.to_string()),
    })
}

fn kinds(items: Vec<ModuleItem>) -> Vec<(String, InteropKind)> {
    let module = Module { body: items };
    assert!(module.declarations_are_normal());
    let mut analyzer = import_analyzer();
    analyzer.visit_module(&module);
    let mut found = analyzer.scope.drain();
    found.sort_by(|a, b| a.0.cmp(&b.0));
    found
}

fn requests(items: Vec<ModuleItem>) -> Vec<HelperRequest> {
    let module = Module { body: items };
    assert!(module.declarations_are_normal());
    let mut found = import_analyzer().fold(&module);
    found.sort_by(|a, b| a.specifier.cmp(&b.specifier));
    found
}

fn entry(specifier: &str, kind: InteropKind) -> (String, InteropKind) {
    (specifier.to_string(), kind)
}

#[test]
fn side_effect_import_gets_no_entry() {
    assert_eq!(kinds(vec![import(vec![], "a")]), vec![]);
}

#[test]
fn unreferenced_module_gets_no_entry() {
    assert_eq!(kinds(vec![]), vec![]);
    assert_eq!(requests(vec![]), vec![]);
}

#[test]
fn lone_namespace_import_is_wildcard() {
    assert_eq!(
        kinds(vec![import(vec![namespace("ns")], "a")]),
        vec![entry("a", InteropKind::Wildcard)]
    );
}

#[test]
fn namespace_import_of_helpers_module_gets_no_entry() {
    assert_eq!(kinds(vec![import(vec![namespace("ns")], "@swc/helpers")]), vec![]);
    assert_eq!(requests(vec![import(vec![namespace("ns")], "@swc/helpers")]), vec![]);
}

#[test]
fn other_imports_of_helpers_module_are_classified() {
    assert_eq!(
        kinds(vec![import(vec![named("x")], "@swc/helpers")]),
        vec![entry("@swc/helpers", InteropKind::Wildcard)]
    );
    assert_eq!(
        kinds(vec![import(vec![default("h")], "@swc/helpers")]),
        vec![entry("@swc/helpers", InteropKind::Default)]
    );
}

#[test]
fn default_import_is_default() {
    assert_eq!(
        kinds(vec![import(vec![default("Foo")], "a")]),
        vec![entry("a", InteropKind::Default)]
    );
}

#[test]
fn named_import_is_wildcard() {
    assert_eq!(kinds(vec![import(vec![named("x")], "a")]), vec![entry("a", InteropKind::Wildcard)]);
}

#[test]
fn named_import_of_default_is_default() {
    assert_eq!(
        kinds(vec![import(vec![named_as("default", "x")], "a")]),
        vec![entry("a", InteropKind::Default)]
    );
    assert_eq!(
        kinds(vec![import(vec![named("default")], "a")]),
        vec![entry("a", InteropKind::Default)]
    );
}

#[test]
fn alias_decides_not_the_local_name() {
    assert_eq!(
        kinds(vec![import(vec![named_as("x", "default")], "a")]),
        vec![entry("a", InteropKind::Wildcard)]
    );
}

#[test]
fn default_then_named_ends_wildcard() {
    // import Foo from "a"; import { x } from "a";
    assert_eq!(
        kinds(vec![import(vec![default("Foo")], "a"), import(vec![named("x")], "a")]),
        vec![entry("a", InteropKind::Wildcard)]
    );
}

#[test]
fn default_after_wildcard_does_not_lower() {
    assert_eq!(
        kinds(vec![import(vec![named("x")], "a"), import(vec![default("Foo")], "a")]),
        vec![entry("a", InteropKind::Wildcard)]
    );
    assert_eq!(
        kinds(vec![import(vec![namespace("ns")], "a"), export(&["default"], Some("a"))]),
        vec![entry("a", InteropKind::Wildcard)]
    );
}

#[test]
fn mixed_specifiers_in_one_declaration() {
    assert_eq!(
        kinds(vec![import(vec![default("Foo"), named("x")], "a")]),
        vec![entry("a", InteropKind::Wildcard)]
    );
    assert_eq!(
        kinds(vec![import(vec![default("Foo"), named_as("default", "y")], "a")]),
        vec![entry("a", InteropKind::Default)]
    );
}

#[test]
fn export_all_is_wildcard() {
    assert_eq!(kinds(vec![export_all("x")]), vec![entry("x", InteropKind::Wildcard)]);
    assert_eq!(
        kinds(vec![import(vec![default("d")], "x"), export_all("x")]),
        vec![entry("x", InteropKind::Wildcard)]
    );
}

#[test]
fn named_re_export_is_wildcard() {
    assert_eq!(kinds(vec![export(&["x"], Some("a"))]), vec![entry("a", InteropKind::Wildcard)]);
}

#[test]
fn re_export_of_default_is_default() {
    assert_eq!(
        kinds(vec![export(&["default"], Some("a"))]),
        vec![entry("a", InteropKind::Default)]
    );
    assert_eq!(
        kinds(vec![export(&["default", "x"], Some("a"))]),
        vec![entry("a", InteropKind::Wildcard)]
    );
}

#[test]
fn re_export_decides_by_the_original_name() {
    let item = |local: &str, exported: &str| {
        ModuleItem::ExportNamed(NamedExport {
            specifiers: vec![ExportSpecifier::Named {
                local: local.to_string(),
                exported: Some(exported.to_string()),
            }],
            source: Some("a".to_string()),
        })
    };
    assert_eq!(kinds(vec![item("default", "x")]), vec![entry("a", InteropKind::Default)]);
    assert_eq!(kinds(vec![item("x", "default")]), vec![entry("a", InteropKind::Wildcard)]);
}

#[test]
fn local_export_gets_no_entry() {
    assert_eq!(kinds(vec![export(&["x", "default"], None)]), vec![]);
}

#[test]
fn one_entry_for_each_specifier() {
    assert_eq!(
        kinds(vec![
            import(vec![default("A")], "a"),
            import(vec![named("b")], "b"),
            import(vec![default("A2")], "a"),
            export_all("c"),
            import(vec![], "d"),
            export(&["default"], Some("b")),
        ]),
        vec![
            entry("a", InteropKind::Default),
            entry("b", InteropKind::Wildcard),
            entry("c", InteropKind::Wildcard),
        ]
    );
}

#[test]
fn fold_requests_one_helper_for_each_specifier() {
    let mut analyzer = import_analyzer();
    let module = Module {
        body: vec![
            import(vec![default("A")], "a"),
            import(vec![named("b")], "b"),
            import(vec![default("A2")], "a"),
        ],
    };
    assert!(module.declarations_are_normal());
    let mut found = analyzer.fold(&module);
    found.sort_by(|a, b| a.specifier.cmp(&b.specifier));
    assert_eq!(
        found,
        vec![
            HelperRequest { specifier: "a".to_string(), helper: Helper::InteropRequireDefault },
            HelperRequest { specifier: "b".to_string(), helper: Helper::InteropRequireWildcard },
        ]
    );
    assert_eq!(analyzer.scope.len(), 0);
    assert_eq!(analyzer.fold(&Module { body: vec![] }), vec![]);
}

#[test]
fn helper_names() {
    assert_eq!(Helper::InteropRequireDefault.name(), "interop_require_default");
    assert_eq!(Helper::InteropRequireWildcard.name(), "interop_require_wildcard");
    assert_eq!(Helper::for_kind(InteropKind::Default), Helper::InteropRequireDefault);
    assert_eq!(Helper::for_kind(InteropKind::Wildcard), Helper::InteropRequireWildcard);
}

#[test]
fn declarations_that_are_not_normal_are_told_apart() {
    let mixed = Module { body: vec![import(vec![namespace("ns"), default("d")], "a")] };
    assert!(!mixed.declarations_are_normal());
    let sugar = Module {
        body: vec![ModuleItem::ExportNamed(NamedExport {
            specifiers: vec![ExportSpecifier::Default { name: "d".to_string() }],
            source: Some("a".to_string()),
        })],
    };
    assert!(!sugar.declarations_are_normal());
    let sugar_all = Module {
        body: vec![ModuleItem::ExportNamed(NamedExport {
            specifiers: vec![ExportSpecifier::Namespace { name: "ns".to_string() }],
            source: Some("a".to_string()),
        })],
    };
    assert!(!sugar_all.declarations_are_normal());
    let fine = Module { body: vec![import(vec![namespace("ns")], "a")] };
    assert!(fine.declarations_are_normal());
}

#[test]
fn scope_records_and_looks_up() {
    let mut scope = Scope::new();
    assert_eq!(scope.len(), 0);
    assert_eq!(scope.get(&"a".to_string()), None);
    scope.mark_default(&"a".to_string());
    assert_eq!(scope.get(&"a".to_string()), Some(InteropKind::Default));
    scope.mark_default(&"a".to_string());
    assert_eq!(scope.len(), 1);
    scope.mark_wildcard(&"a".to_string());
    assert_eq!(scope.get(&"a".to_string()), Some(InteropKind::Wildcard));
    scope.mark_default(&"a".to_string());
    assert_eq!(scope.get(&"a".to_string()), Some(InteropKind::Wildcard));
    scope.mark_wildcard(&"b".to_string());
    assert_eq!(scope.len(), 2);
    let mut held = scope.drain();
    held.sort_by(|a, b| a.0.cmp(&b.0));
    assert_eq!(held, vec![entry("a", InteropKind::Wildcard), entry("b", InteropKind::Wildcard)]);
    assert_eq!(scope.len(), 0);
}
