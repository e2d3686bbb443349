use ara::ast::{Block, Expr, FnItem, Item, Pat, Stmt, UseTree};
use ara::edge::Edge;
use ara::node::NodeType;
use ara::state::State;

fn path(name: &str) -> Expr {
    Expr::Path { segments: vec![name.to_string()] }
}

fn fn_item(name: &str, stmts: Vec<Stmt>) -> FnItem {
    FnItem { name: name.to_string(), doc: Vec::new(), body: Block { stmts } }
}

#[test]
fn nested_call_produces_three_nodes_and_chained_edges() {
    // fn f { g(h()) }
    let inner = Expr::Call { func: Box::new(path("h")), args: vec![] };
    let outer = Expr::Call { func: Box::new(path("g")), args: vec![inner] };
    let f = fn_item("f", vec![Stmt::ExprStmt { expr: outer }]);
    let mut s = State::new();
    s.visit_item_fn(&f, &vec![]);

    assert_eq!(s.graph.nodes.len(), 3);
    assert_eq!(s.graph.nodes[0].key, "::f");
    assert_eq!(s.graph.nodes[0].node_type, NodeType::Function);
    assert_eq!(s.graph.nodes[1].key, "g");
    assert_eq!(s.graph.nodes[1].node_type, NodeType::Call);
    assert_eq!(s.graph.nodes[2].key, "h");
    assert_eq!(s.graph.nodes[2].node_type, NodeType::Call);
    // g feeds the function, h feeds g
    assert_eq!(s.graph.edges, vec![Edge { from: 0, to: 1 }, Edge { from: 1, to: 2 }]);
    // the attachment stack is cleared after the function, the nodes stay
    assert!(s.graph.calls.is_empty());
}

#[test]
fn nodes_and_edges_persist_across_functions() {
    let f1 = fn_item("f", vec![Stmt::ExprStmt {
        expr: Expr::Call { func: Box::new(path("g")), args: vec![] },
    }]);
    let f2 = fn_item("k", vec![]);
    let mut s = State::new();
    s.visit_item_fn(&f1, &vec![]);
    let after_first = s.graph.nodes.len();
    s.visit_item_fn(&f2, &vec![]);
    assert_eq!(after_first, 2);
    assert_eq!(s.graph.nodes.len(), 3);
    assert_eq!(s.graph.nodes[2].key, "::k");
    assert_eq!(s.graph.edges.len(), 1);
}

#[test]
fn literal_binding_marks_function_node_and_reference_stays_call() {
    // fn f { let x = 5; x }
    // The literal lands on the most recent node, the function itself, and
    // no node exists yet at the binding's depth, so the registration of
    // `x` finds no target and the later reference reads as a call.
    let stmts = vec![
        Stmt::Local {
            pat: Pat::Ident { name: "x".to_string() },
            init: Some(Expr::Lit { text: "5".to_string() }),
        },
        Stmt::ExprStmt { expr: path("x") },
    ];
    let f = fn_item("f", stmts);
    let mut s = State::new();
    s.visit_item_fn(&f, &vec![]);

    assert_eq!(s.graph.nodes.len(), 2);
    assert_eq!(s.graph.nodes[0].literal, Some("5".to_string()));
    assert_eq!(s.graph.nodes[0].local, "");
    assert_eq!(s.graph.nodes[1].key, "x");
    assert_eq!(s.graph.nodes[1].node_type, NodeType::Call);
}

#[test]
fn call_binding_registers_local_and_reference_becomes_local() {
    // fn f { let x = g(); x }
    let stmts = vec![
        Stmt::Local {
            pat: Pat::Ident { name: "x".to_string() },
            init: Some(Expr::Call { func: Box::new(path("g")), args: vec![] }),
        },
        Stmt::ExprStmt { expr: path("x") },
    ];
    let f = fn_item("f", stmts);
    let mut s = State::new();
    s.visit_item_fn(&f, &vec![]);

    // the initializer's call node carries the binding name
    assert_eq!(s.graph.nodes[1].key, "g");
    assert_eq!(s.graph.nodes[1].local, "x");
    // so the later bare reference is classified Local
    assert_eq!(s.graph.nodes[2].key, "x");
    assert_eq!(s.graph.nodes[2].node_type, NodeType::Local);
}

#[test]
fn method_call_wires_receiver() {
    // fn f { a.b() }
    let mc = Expr::MethodCall {
        receiver: Box::new(path("a")),
        method: "b".to_string(),
        args: vec![],
    };
    let f = fn_item("f", vec![Stmt::ExprStmt { expr: mc }]);
    let mut s = State::new();
    s.visit_item_fn(&f, &vec![]);

    assert_eq!(s.graph.nodes[1].key, "a");
    assert_eq!(s.graph.nodes[2].key, "b");
    assert_eq!(s.graph.nodes[2].node_type, NodeType::Method);
    // a feeds the function; the method node wires back to its receiver a
    assert_eq!(s.graph.edges, vec![Edge { from: 0, to: 1 }, Edge { from: 1, to: 2 }]);
}

#[test]
fn method_on_literal_receiver_gets_no_edge() {
    // fn f { 5.to_string() } -- the receiver creates no node, so the method
    // node has no receiver to wire to and gets no edge
    let mc = Expr::MethodCall {
        receiver: Box::new(Expr::Lit { text: "5".to_string() }),
        method: "to_string".to_string(),
        args: vec![],
    };
    let f = fn_item("f", vec![Stmt::ExprStmt { expr: mc }]);
    let mut s = State::new();
    s.visit_item_fn(&f, &vec![]);
    assert_eq!(s.graph.nodes.len(), 2);
    assert_eq!(s.graph.nodes[0].literal, Some("5".to_string()));
    assert_eq!(s.graph.nodes[1].node_type, NodeType::Method);
    assert!(s.graph.edges.is_empty());
}

#[test]
fn while_loop_walks_condition_and_body() {
    // fn f { while c { t() } }
    let w = Expr::While {
        cond: Box::new(path("c")),
        body: Block { stmts: vec![Stmt::ExprStmt {
            expr: Expr::Call { func: Box::new(path("t")), args: vec![] },
        }] },
    };
    let f = fn_item("f", vec![Stmt::ExprStmt { expr: w }]);
    let mut s = State::new();
    s.visit_item_fn(&f, &vec![]);
    let keys: Vec<&str> = s.graph.nodes.iter().map(|n| n.key.as_str()).collect();
    assert_eq!(keys, vec!["::f", "c", "t"]);
}

#[test]
fn for_loop_walks_iterable_and_body() {
    // fn f { for x in xs { u() } }
    let fl = Expr::ForLoop {
        iter: Box::new(path("xs")),
        body: Block { stmts: vec![Stmt::ExprStmt {
            expr: Expr::Call { func: Box::new(path("u")), args: vec![] },
        }] },
    };
    let f = fn_item("f", vec![Stmt::ExprStmt { expr: fl }]);
    let mut s = State::new();
    s.visit_item_fn(&f, &vec![]);
    let keys: Vec<&str> = s.graph.nodes.iter().map(|n| n.key.as_str()).collect();
    assert_eq!(keys, vec!["::f", "xs", "u"]);
}

#[test]
fn plain_loop_walks_body() {
    // fn f { loop { v() } }
    let l = Expr::Loop {
        body: Block { stmts: vec![Stmt::ExprStmt {
            expr: Expr::Call { func: Box::new(path("v")), args: vec![] },
        }] },
    };
    let f = fn_item("f", vec![Stmt::ExprStmt { expr: l }]);
    let mut s = State::new();
    s.visit_item_fn(&f, &vec![]);
    let keys: Vec<&str> = s.graph.nodes.iter().map(|n| n.key.as_str()).collect();
    assert_eq!(keys, vec!["::f", "v"]);
}

#[test]
fn tuple_and_literal_inside() {
    // fn f { (1,) }
    let tuple = Expr::Tuple { elems: vec![Expr::Lit { text: "1".to_string() }] };
    let f = fn_item("f", vec![Stmt::ExprStmt { expr: tuple }]);
    let mut s = State::new();
    s.visit_item_fn(&f, &vec![]);
    assert_eq!(s.graph.nodes[1].key, "(,)");
    assert_eq!(s.graph.nodes[1].node_type, NodeType::Tuple);
    assert_eq!(s.graph.nodes[1].literal, Some("1".to_string()));
}

#[test]
fn macro_and_struct_nodes() {
    // fn f { m!(); S { v: g } }
    let stmts = vec![
        Stmt::ExprStmt { expr: Expr::MacroCall { segments: vec!["m".to_string()] } },
        Stmt::ExprStmt {
            expr: Expr::StructLit { segments: vec!["S".to_string()], fields: vec![path("g")] },
        },
    ];
    let f = fn_item("f", stmts);
    let mut s = State::new();
    s.visit_item_fn(&f, &vec![]);
    assert_eq!(s.graph.nodes[1].key, "m");
    assert_eq!(s.graph.nodes[1].node_type, NodeType::Macro);
    assert_eq!(s.graph.nodes[2].key, "S");
    assert_eq!(s.graph.nodes[2].node_type, NodeType::Struct);
    assert_eq!(s.graph.nodes[3].key, "g");
}

#[test]
fn allow_list_filters_functions_by_name() {
    let f = fn_item("f", vec![]);
    let mut s = State::new();
    s.visit_item_fn(&f, &vec!["other".to_string()]);
    assert!(s.graph.nodes.is_empty());
    s.visit_item_fn(&f, &vec!["f".to_string()]);
    assert_eq!(s.graph.nodes.len(), 1);
}

#[test]
fn function_node_keeps_doc_comments_and_file_prefix() {
    let f = FnItem {
        name: "f".to_string(),
        doc: vec![" does things".to_string()],
        body: Block { stmts: vec![] },
    };
    let mut s = State::new();
    s.update_current_file("/p/src/lib.rs".to_string(), "/p");
    s.visit_item_fn(&f, &vec![]);
    assert_eq!(s.graph.nodes[0].key, "lib::f");
    assert_eq!(s.graph.nodes[0].doc, vec![" does things".to_string()]);
}

#[test]
fn grouped_import_resolves_two_full_names_and_clears_stack() {
    // use a::{b, c::d};
    let tree = UseTree::Path {
        ident: "a".to_string(),
        tree: Box::new(UseTree::Group {
            items: vec![
                UseTree::Name { name: "b".to_string() },
                UseTree::Path {
                    ident: "c".to_string(),
                    tree: Box::new(UseTree::Name { name: "d".to_string() }),
                },
            ],
        }),
    };
    let items = vec![Item::Use { tree }];
    let mut s = State::new();
    s.visit_file(&items, &vec![]);
    assert_eq!(s.current_libs, vec!["a::b".to_string(), "a::c::d".to_string()]);
    assert_eq!(s.use_stack.root, "");
    assert!(s.use_stack.stack.is_empty());
    assert_eq!(s.use_stack.group_layer, 1);
}

#[test]
fn module_declaration_records_its_name() {
    let items = vec![Item::Mod { name: "routes".to_string() }];
    let mut s = State::new();
    s.visit_file(&items, &vec![]);
    assert_eq!(s.current_libs, vec!["routes".to_string()]);
}

#[test]
fn file_of_mixed_items_is_walked_in_order() {
    let items = vec![
        Item::Use { tree: UseTree::Path {
            ident: "std".to_string(),
            tree: Box::new(UseTree::Name { name: "fmt".to_string() }),
        } },
        Item::Other,
        Item::Fn { item: fn_item("main", vec![Stmt::ExprStmt {
            expr: Expr::Call { func: Box::new(path("run")), args: vec![] },
        }]) },
    ];
    let mut s = State::new();
    s.visit_file(&items, &vec![]);
    assert_eq!(s.current_libs, vec!["std::fmt".to_string()]);
    assert_eq!(s.graph.nodes.len(), 2);
    assert_eq!(s.graph.nodes[0].key, "::main");
    assert_eq!(s.graph.nodes[1].key, "run");
}

#[test]
fn conditional_walks_condition_else_then_block() {
    // fn f { if c { t() } else { e } }   (else as a bare path)
    let cond = path("c");
    let then_branch = Block { stmts: vec![Stmt::ExprStmt {
        expr: Expr::Call { func: Box::new(path("t")), args: vec![] },
    }] };
    let if_expr = Expr::If {
        cond: Box::new(cond),
        then_branch,
        else_branch: Some(Box::new(path("e"))),
    };
    let f = fn_item("f", vec![Stmt::ExprStmt { expr: if_expr }]);
    let mut s = State::new();
    s.visit_item_fn(&f, &vec![]);
    let keys: Vec<&str> = s.graph.nodes.iter().map(|n| n.key.as_str()).collect();
    // condition first, then the else expression, then the then-block body
    assert_eq!(keys, vec!["::f", "c", "e", "t"]);
}

#[test]
fn match_walks_scrutinee_call_and_arms() {
    // fn f { match g() { _ => h, _ => i } }
    let m = Expr::Match {
        scrutinee: Box::new(Expr::Call { func: Box::new(path("g")), args: vec![] }),
        arms: vec![path("h"), path("i")],
    };
    let f = fn_item("f", vec![Stmt::ExprStmt { expr: m }]);
    let mut s = State::new();
    s.visit_item_fn(&f, &vec![]);
    let keys: Vec<&str> = s.graph.nodes.iter().map(|n| n.key.as_str()).collect();
    assert_eq!(keys, vec!["::f", "g", "h", "i"]);
}
