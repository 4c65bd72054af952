use ecma_passes::display_name::display_name;
use ecma_passes::node::{
    AssignOp, CallExpr, Expr, Module, ModuleItem, Pat, Prop, PropName, Stmt, VarDeclarator,
};
use ecma_passes::propagate::{
    add_display_name, is_create_class_call, is_key_display_name, wants_display_name, Folder,
};

fn ident(name: &str) -> Expr {
    Expr::Ident(name.to_string())
}

fn text(value: &str) -> Expr {
    Expr::Str(value.to_string())
}

fn member(object: Expr, property: &str) -> Expr {
    Expr::Member { object: Box::new(object), property: Box::new(ident(property)), computed: false }
}

fn call(callee: Expr, args: Vec<Expr>) -> Expr {
    Expr::Call(CallExpr { callee: Box::new(callee), args })
}

fn react_create_class(args: Vec<Expr>) -> Expr {
    call(member(ident("React"), "createClass"), args)
}

fn create_react_class(args: Vec<Expr>) -> Expr {
    call(ident("createReactClass"), args)
}

fn key_value(key: &str, value: Expr) -> Prop {
    Prop::KeyValue { key: PropName::Ident(key.to_string()), value }
}

fn display_name_is(value: Expr) -> Prop {
    key_value("displayName", value)
}

fn var(name: &str, init: Expr) -> ModuleItem {
    ModuleItem::Stmt(Stmt::Var(vec![VarDeclarator {
        name: Pat::Ident(name.to_string()),
        init: Some(init),
    }]))
}

fn expr_stmt(e: Expr) -> ModuleItem {
    ModuleItem::Stmt(Stmt::Expr(e))
}

fn assign(target: Pat, value: Expr) -> Expr {
    Expr::Assign { op: AssignOp::Assign, target: Box::new(target), value: Box::new(value) }
}

fn run(items: Vec<ModuleItem>) -> Vec<ModuleItem> {
    let module = Module { body: items };
    assert!(module.is_legal());
    display_name().fold_module(module).body
}

#[test]
fn variable_declarator_names_the_call() {
    let out = run(vec![var("Foo", react_create_class(vec![Expr::Object(vec![])]))]);
    assert_eq!(
        out,
        vec![var("Foo", react_create_class(vec![Expr::Object(vec![display_name_is(text("Foo"))])]))]
    );
}

#[test]
fn bare_factory_name_is_recognised() {
    let out = run(vec![var("Foo", create_react_class(vec![Expr::Object(vec![])]))]);
    assert_eq!(
        out,
        vec![var("Foo", create_react_class(vec![Expr::Object(vec![display_name_is(text("Foo"))])]))]
    );
}

#[test]
fn nested_property_names_the_call_and_leaves_inner_literal() {
    // const X = { a: React.createClass({ inner: {} }) }
    let inner = || key_value("inner", Expr::Object(vec![]));
    let out = run(vec![var(
        "X",
        Expr::Object(vec![key_value("a", react_create_class(vec![Expr::Object(vec![inner()])]))]),
    )]);
    assert_eq!(
        out,
        vec![var(
            "X",
            Expr::Object(vec![key_value(
                "a",
                react_create_class(vec![Expr::Object(vec![inner(), display_name_is(text("a"))])]),
            )]),
        )]
    );
}

#[test]
fn existing_display_name_wins() {
    // var Foo = React.createClass({ displayName: "Bar", render(){} })
    let component = || {
        react_create_class(vec![Expr::Object(vec![
            display_name_is(text("Bar")),
            Prop::Method {
                key: PropName::Ident("render".to_string()),
                params: vec![],
                body: vec![],
            },
        ])])
    };
    let out = run(vec![var("Foo", component())]);
    assert_eq!(out, vec![var("Foo", component())]);
}

#[test]
fn string_key_display_name_wins() {
    let component = || {
        react_create_class(vec![Expr::Object(vec![Prop::KeyValue {
            key: PropName::Str("displayName".to_string()),
            value: text("Bar"),
        }])])
    };
    let out = run(vec![var("Foo", component())]);
    assert_eq!(out, vec![var("Foo", component())]);
}

#[test]
fn computed_display_name_key_does_not_count() {
    let computed = || Prop::KeyValue {
        key: PropName::Computed(Box::new(text("displayName"))),
        value: text("Bar"),
    };
    let out = run(vec![var("Foo", react_create_class(vec![Expr::Object(vec![computed()])]))]);
    assert_eq!(
        out,
        vec![var(
            "Foo",
            react_create_class(vec![Expr::Object(vec![computed(), display_name_is(text("Foo"))])]),
        )]
    );
}

#[test]
fn default_export_is_named_input() {
    // export default React.createClass({})
    let out = run(vec![ModuleItem::ExportDefaultExpr(react_create_class(vec![Expr::Object(
        vec![],
    )]))]);
    assert_eq!(
        out,
        vec![ModuleItem::ExportDefaultExpr(react_create_class(vec![Expr::Object(vec![
            display_name_is(text("input"))
        ])]))]
    );
}

#[test]
fn member_assignment_names_by_property() {
    // obj.Comp = React.createClass({})
    let target = || Pat::Expr(Box::new(member(ident("obj"), "Comp")));
    let out =
        run(vec![expr_stmt(assign(target(), react_create_class(vec![Expr::Object(vec![])])))]);
    assert_eq!(
        out,
        vec![expr_stmt(assign(
            target(),
            react_create_class(vec![Expr::Object(vec![display_name_is(text("Comp"))])]),
        ))]
    );
}

#[test]
fn identifier_assignment_names_by_identifier() {
    let out = run(vec![expr_stmt(assign(
        Pat::Ident("foo".to_string()),
        create_react_class(vec![Expr::Object(vec![])]),
    ))]);
    assert_eq!(
        out,
        vec![expr_stmt(assign(
            Pat::Ident("foo".to_string()),
            create_react_class(vec![Expr::Object(vec![display_name_is(text("foo"))])]),
        ))]
    );
}

#[test]
fn expression_identifier_target_names_by_identifier() {
    let target = || Pat::Expr(Box::new(ident("bar")));
    let out =
        run(vec![expr_stmt(assign(target(), react_create_class(vec![Expr::Object(vec![])])))]);
    assert_eq!(
        out,
        vec![expr_stmt(assign(
            target(),
            react_create_class(vec![Expr::Object(vec![display_name_is(text("bar"))])]),
        ))]
    );
}

#[test]
fn compound_assignment_names_nothing() {
    let make = || {
        expr_stmt(Expr::Assign {
            op: AssignOp::AddAssign,
            target: Box::new(Pat::Ident("foo".to_string())),
            value: Box::new(react_create_class(vec![Expr::Object(vec![])])),
        })
    };
    assert_eq!(run(vec![make()]), vec![make()]);
}

#[test]
fn computed_member_target_names_nothing() {
    let make = || {
        expr_stmt(assign(
            Pat::Expr(Box::new(Expr::Member {
                object: Box::new(ident("obj")),
                property: Box::new(ident("key")),
                computed: true,
            })),
            react_create_class(vec![Expr::Object(vec![])]),
        ))
    };
    assert_eq!(run(vec![make()]), vec![make()]);
}

#[test]
fn destructuring_declarator_names_nothing_but_is_walked() {
    // var [a] = { b: React.createClass({}) }
    let out = run(vec![ModuleItem::Stmt(Stmt::Var(vec![VarDeclarator {
        name: Pat::Array(vec![Pat::Ident("a".to_string())]),
        init: Some(Expr::Object(vec![key_value(
            "b",
            react_create_class(vec![Expr::Object(vec![])]),
        )])),
    }]))]);
    assert_eq!(
        out,
        vec![ModuleItem::Stmt(Stmt::Var(vec![VarDeclarator {
            name: Pat::Array(vec![Pat::Ident("a".to_string())]),
            init: Some(Expr::Object(vec![key_value(
                "b",
                react_create_class(vec![Expr::Object(vec![display_name_is(text("b"))])]),
            )])),
        }]))]
    );
}

#[test]
fn factory_call_as_argument_is_reached() {
    // var foo = qux(createReactClass({}))
    let out = run(vec![var(
        "foo",
        call(ident("qux"), vec![create_react_class(vec![Expr::Object(vec![])])]),
    )]);
    assert_eq!(
        out,
        vec![var(
            "foo",
            call(
                ident("qux"),
                vec![create_react_class(vec![Expr::Object(vec![display_name_is(text("foo"))])])],
            ),
        )]
    );
}

#[test]
fn candidate_serves_every_call_it_reaches() {
    let out = run(vec![var(
        "foo",
        call(
            ident("pick"),
            vec![
                create_react_class(vec![Expr::Object(vec![])]),
                react_create_class(vec![Expr::Object(vec![])]),
            ],
        ),
    )]);
    assert_eq!(
        out,
        vec![var(
            "foo",
            call(
                ident("pick"),
                vec![
                    create_react_class(vec![Expr::Object(vec![display_name_is(text("foo"))])]),
                    react_create_class(vec![Expr::Object(vec![display_name_is(text("foo"))])]),
                ],
            ),
        )]
    );
}

#[test]
fn array_literal_stops_the_candidate() {
    let make = || var("foo", Expr::Array(vec![react_create_class(vec![Expr::Object(vec![])])]));
    assert_eq!(run(vec![make()]), vec![make()]);
}

#[test]
fn function_body_is_walked_with_the_candidate() {
    // var foo = function () { return React.createClass({}) }
    let function = |props: Vec<Prop>| Expr::Function {
        params: vec![],
        body: vec![Stmt::Return(Some(react_create_class(vec![Expr::Object(props)])))],
    };
    let out = run(vec![var("foo", function(vec![]))]);
    assert_eq!(out, vec![var("foo", function(vec![display_name_is(text("foo"))]))]);
}

#[test]
fn inner_name_wins_over_outer_name() {
    // var X = (Y = React.createClass({}))
    let out = run(vec![var(
        "X",
        assign(Pat::Ident("Y".to_string()), react_create_class(vec![Expr::Object(vec![])])),
    )]);
    assert_eq!(
        out,
        vec![var(
            "X",
            assign(
                Pat::Ident("Y".to_string()),
                react_create_class(vec![Expr::Object(vec![display_name_is(text("Y"))])]),
            ),
        )]
    );
}

#[test]
fn numeric_key_gives_numeric_name() {
    let bits = 0x4045_0000_0000_0000u64;
    let prop = |value: Expr| Prop::KeyValue { key: PropName::Num(bits), value };
    let out = run(vec![expr_stmt(Expr::Object(vec![prop(react_create_class(vec![Expr::Object(
        vec![],
    )]))]))]);
    assert_eq!(
        out,
        vec![expr_stmt(Expr::Object(vec![prop(react_create_class(vec![Expr::Object(vec![
            display_name_is(Expr::Num(bits))
        ])]))]))]
    );
}

#[test]
fn string_key_gives_string_name() {
    let prop = |value: Expr| Prop::KeyValue { key: PropName::Str("my-box".to_string()), value };
    let out = run(vec![expr_stmt(Expr::Object(vec![prop(react_create_class(vec![Expr::Object(
        vec![],
    )]))]))]);
    assert_eq!(
        out,
        vec![expr_stmt(Expr::Object(vec![prop(react_create_class(vec![Expr::Object(vec![
            display_name_is(text("my-box"))
        ])]))]))]
    );
}

#[test]
fn computed_key_gives_the_key_expression() {
    let key = || member(ident("names"), "box");
    let prop = |value: Expr| Prop::KeyValue { key: PropName::Computed(Box::new(key())), value };
    let out = run(vec![expr_stmt(Expr::Object(vec![prop(react_create_class(vec![Expr::Object(
        vec![],
    )]))]))]);
    assert_eq!(
        out,
        vec![expr_stmt(Expr::Object(vec![prop(react_create_class(vec![Expr::Object(vec![
            display_name_is(key())
        ])]))]))]
    );
}

#[test]
fn non_object_first_argument_is_left_alone() {
    let make = || var("Foo", react_create_class(vec![ident("spec")]));
    assert_eq!(run(vec![make()]), vec![make()]);
    let none = || var("Foo", react_create_class(vec![]));
    assert_eq!(run(vec![none()]), vec![none()]);
}

#[test]
fn other_callee_is_left_alone() {
    let make = || var("Foo", call(member(ident("Preact"), "createClass"), vec![Expr::Object(vec![])]));
    assert_eq!(run(vec![make()]), vec![make()]);
}

#[test]
fn method_body_is_walked_without_a_candidate() {
    // ({ render() { var Inner = createReactClass({}); } })
    let method = |props: Vec<Prop>| {
        expr_stmt(Expr::Object(vec![Prop::Method {
            key: PropName::Ident("render".to_string()),
            params: vec![],
            body: vec![Stmt::Var(vec![VarDeclarator {
                name: Pat::Ident("Inner".to_string()),
                init: Some(create_react_class(vec![Expr::Object(props)])),
            }])],
        }]))
    };
    assert_eq!(run(vec![method(vec![])]), vec![method(vec![display_name_is(text("Inner"))])]);
}

#[test]
fn second_run_changes_nothing() {
    let items = || {
        vec![
            var("Foo", react_create_class(vec![Expr::Object(vec![])])),
            var(
                "X",
                Expr::Object(vec![key_value(
                    "a",
                    react_create_class(vec![Expr::Object(vec![key_value(
                        "inner",
                        Expr::Object(vec![]),
                    )])]),
                )]),
            ),
            ModuleItem::ExportDefaultExpr(create_react_class(vec![Expr::Object(vec![])])),
        ]
    };
    let once = run(items());
    let twice = run(run(items()));
    assert_eq!(once, twice);
    assert_ne!(once, items());
}

#[test]
fn component_in_a_computed_key_is_named_by_a_second_run() {
    // ({ [React.createClass({})]: React.createClass({}) })
    let plain = || react_create_class(vec![Expr::Object(vec![])]);
    let prop = |value: Expr| Prop::KeyValue { key: PropName::Computed(Box::new(plain())), value };
    let once = run(vec![expr_stmt(Expr::Object(vec![prop(plain())]))]);
    assert_eq!(
        once,
        vec![expr_stmt(Expr::Object(vec![prop(react_create_class(vec![Expr::Object(vec![
            display_name_is(plain())
        ])]))]))]
    );
    let twice = run(once);
    assert_eq!(
        twice,
        vec![expr_stmt(Expr::Object(vec![prop(react_create_class(vec![Expr::Object(vec![
            display_name_is(react_create_class(vec![Expr::Object(vec![display_name_is(text(
                "displayName"
            ))])]))
        ])]))]))]
    );
}

#[test]
fn clone_gives_an_equal_tree() {
    let e = assign(
        Pat::Expr(Box::new(member(ident("a"), "b"))),
        Expr::Function {
            params: vec![Pat::Array(vec![Pat::Ident("p".to_string())])],
            body: vec![
                Stmt::Var(vec![VarDeclarator { name: Pat::Ident("x".to_string()), init: None }]),
                Stmt::Return(Some(Expr::Array(vec![
                    Expr::Num(7),
                    Expr::Object(vec![
                        Prop::Shorthand("s".to_string()),
                        Prop::Getter { key: PropName::Str("g".to_string()), body: vec![] },
                        Prop::Setter {
                            key: PropName::Num(1),
                            param: Pat::Ident("v".to_string()),
                            body: vec![Stmt::Expr(ident("v"))],
                        },
                        Prop::Assign { name: "n".to_string(), value: text("t") },
                    ]),
                ]))),
            ],
        },
    );
    let copy = e.clone();
    assert_eq!(copy, e);
}

#[test]
fn propagator_without_candidate_changes_nothing() {
    let folder = Folder { name: None };
    let e = react_create_class(vec![Expr::Object(vec![])]);
    assert!(e.is_legal());
    assert_eq!(folder.fold_expr(e), react_create_class(vec![Expr::Object(vec![])]));
}

#[test]
fn propagator_adds_a_copy_of_its_candidate() {
    let folder = Folder { name: Some(text("Box")) };
    let e = react_create_class(vec![Expr::Object(vec![])]);
    assert!(e.is_legal());
    assert_eq!(
        folder.fold_expr(e),
        react_create_class(vec![Expr::Object(vec![display_name_is(text("Box"))])])
    );
    assert_eq!(folder.name, Some(text("Box")));
}

#[test]
fn second_candidate_changes_nothing() {
    let first = Folder { name: Some(text("First")) };
    let second = Folder { name: Some(text("Second")) };
    let e = call(
        ident("wrap"),
        vec![
            react_create_class(vec![Expr::Object(vec![])]),
            member(create_react_class(vec![Expr::Object(vec![key_value("a", text("b"))])]), "x"),
        ],
    );
    let once = first.fold_expr(e);
    assert_eq!(
        once,
        call(
            ident("wrap"),
            vec![
                react_create_class(vec![Expr::Object(vec![display_name_is(text("First"))])]),
                member(
                    create_react_class(vec![Expr::Object(vec![
                        key_value("a", text("b")),
                        display_name_is(text("First"))
                    ])]),
                    "x"
                ),
            ],
        )
    );
    let copy = once.clone();
    assert_eq!(second.fold_expr(once), copy);
}

#[test]
fn propagator_hands_literals_back() {
    let folder = Folder { name: Some(text("Box")) };
    let object =
        || Expr::Object(vec![key_value("a", react_create_class(vec![Expr::Object(vec![])]))]);
    let array = || Expr::Array(vec![create_react_class(vec![Expr::Object(vec![])])]);
    assert_eq!(folder.fold_expr(object()), object());
    assert_eq!(folder.fold_expr(array()), array());
}

#[test]
fn factory_call_is_recognised_by_exact_shape() {
    let as_call = |e: Expr| match e {
        Expr::Call(c) => c,
        _ => unreachable!(),
    };
    assert!(is_create_class_call(&as_call(react_create_class(vec![]))));
    assert!(is_create_class_call(&as_call(create_react_class(vec![]))));
    assert!(!is_create_class_call(&as_call(call(ident("createClass"), vec![]))));
    assert!(!is_create_class_call(&as_call(call(member(ident("react"), "createClass"), vec![]))));
    assert!(!is_create_class_call(&as_call(call(
        Expr::Member {
            object: Box::new(ident("React")),
            property: Box::new(ident("createClass")),
            computed: true,
        },
        vec![]
    ))));
    assert!(!is_create_class_call(&as_call(call(
        Expr::Member {
            object: Box::new(ident("React")),
            property: Box::new(text("createClass")),
            computed: false,
        },
        vec![]
    ))));
}

#[test]
fn display_name_keys_are_recognised() {
    assert!(is_key_display_name(&display_name_is(text("x"))));
    assert!(is_key_display_name(&Prop::Shorthand("displayName".to_string())));
    assert!(is_key_display_name(&Prop::Getter {
        key: PropName::Str("displayName".to_string()),
        body: vec![]
    }));
    assert!(is_key_display_name(&Prop::Setter {
        key: PropName::Ident("displayName".to_string()),
        param: Pat::Ident("v".to_string()),
        body: vec![]
    }));
    assert!(is_key_display_name(&Prop::Method {
        key: PropName::Ident("displayName".to_string()),
        params: vec![],
        body: vec![]
    }));
    assert!(!is_key_display_name(&key_value("displayname", text("x"))));
    assert!(!is_key_display_name(&Prop::Shorthand("name".to_string())));
    assert!(!is_key_display_name(&Prop::KeyValue { key: PropName::Num(0), value: text("x") }));
    assert!(!is_key_display_name(&Prop::KeyValue {
        key: PropName::Computed(Box::new(text("displayName"))),
        value: text("x")
    }));
}

#[test]
fn add_display_name_appends_at_the_end() {
    let c = CallExpr {
        callee: Box::new(ident("anything")),
        args: vec![Expr::Object(vec![key_value("a", text("b"))]), ident("second")],
    };
    assert!(wants_display_name(&c));
    let named = add_display_name(c, text("N"));
    assert_eq!(
        named,
        CallExpr {
            callee: Box::new(ident("anything")),
            args: vec![
                Expr::Object(vec![key_value("a", text("b")), display_name_is(text("N"))]),
                ident("second")
            ],
        }
    );
    assert!(!wants_display_name(&named));
    let again = add_display_name(named, text("M"));
    assert_eq!(
        again.args[0],
        Expr::Object(vec![key_value("a", text("b")), display_name_is(text("N"))])
    );
}

#[test]
fn assign_pattern_property_is_not_legal() {
    let module = Module {
        body: vec![expr_stmt(Expr::Object(vec![Prop::Assign {
            name: "a".to_string(),
            value: text("b"),
        }]))],
    };
    assert!(!module.is_legal());
    let fine = Module { body: vec![expr_stmt(Expr::Object(vec![key_value("a", text("b"))]))] };
    assert!(fine.is_legal());
}
