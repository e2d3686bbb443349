use ara::ast::Pat;
use ara::config::Settings;
use ara::file::is_ignored;
use ara::strutil::{contains_sub, join_strings, remove_all, str_eq};
use ara::toml::{mentions_workspace, Data, Workspace};
use ara::tree::{BTree, Node};
use ara::utils::{create_path, get_function_arguments, get_local};
use ara::Ara;

#[test]
fn str_eq_compares_contents() {
    assert!(str_eq("abc", "abc"));
    assert!(!str_eq("abc", "abd"));
    assert!(str_eq("", ""));
}

#[test]
fn contains_sub_finds_plain_substrings() {
    assert!(contains_sub("hello world", "lo wo"));
    assert!(contains_sub("hello", ""));
    assert!(!contains_sub("hello", "world"));
    assert!(!contains_sub("ab", "abc"));
}

#[test]
fn remove_all_strikes_every_occurrence() {
    assert_eq!(remove_all("aXbXc", "X"), "abc");
    assert_eq!(remove_all("aaa", "aa"), "a");
    assert_eq!(remove_all("abc", "xyz"), "abc");
    assert_eq!(remove_all("abc", ""), "abc");
    assert_eq!(remove_all("/src/lib.rs", "/src/"), "lib.rs");
}

#[test]
fn join_strings_separates_segments() {
    let parts = vec!["a".to_string(), "b".to_string(), "c".to_string()];
    assert_eq!(join_strings(&parts, "::"), "a::b::c");
    assert_eq!(join_strings(&parts, ""), "abc");
    assert_eq!(join_strings(&vec!["x".to_string()], "::"), "x");
    assert_eq!(join_strings(&Vec::new(), "::"), "");
}

#[test]
fn create_path_uses_path_separator() {
    let segs = vec!["a".to_string(), "b".to_string()];
    assert_eq!(create_path(&segs), "a::b");
}

#[test]
fn get_local_reads_binding_names() {
    assert_eq!(get_local(&Pat::Ident { name: "x".to_string() }), Some("x".to_string()));
    let typed = Pat::Typed { inner: Box::new(Pat::Ident { name: "y".to_string() }) };
    assert_eq!(get_local(&typed), Some("y".to_string()));
    let tuple = Pat::Tuple { elems: vec![Pat::Other, Pat::Ident { name: "z".to_string() }] };
    assert_eq!(get_local(&tuple), Some("z".to_string()));
    assert_eq!(get_local(&Pat::Tuple { elems: vec![Pat::Other] }), None);
    assert_eq!(get_local(&Pat::TupleStruct { elems: vec![] }), None);
    assert_eq!(get_local(&Pat::Other), None);
}

#[test]
fn function_arguments_collect_identifiers() {
    let pats = vec![
        Pat::Ident { name: "a".to_string() },
        Pat::TupleStruct { elems: vec![
            Pat::Ident { name: "b".to_string() },
            Pat::Other,
            Pat::Ident { name: "c".to_string() },
        ] },
        Pat::Other,
    ];
    let names = get_function_arguments(&pats);
    assert_eq!(names, vec!["a".to_string(), "b".to_string(), "c".to_string()]);
}

#[test]
fn ignore_list_excludes_matching_paths() {
    let ignore = vec!["/target".to_string(), "/tests".to_string()];
    assert!(is_ignored("/proj/target/debug", &ignore));
    assert!(is_ignored("/proj/tests", &ignore));
    assert!(!is_ignored("/proj/src/lib.rs", &ignore));
    assert!(!is_ignored("/proj/src", &Vec::new()));
}

#[test]
fn workspace_mention_is_a_substring_test() {
    assert!(mentions_workspace("[workspace]\nmembers = []"));
    assert!(!mentions_workspace("[package]\nname = \"x\""));
    let data = Data { workspace: Workspace { members: vec!["axum".to_string()] } };
    assert_eq!(data.workspace.members, vec!["axum".to_string()]);
}

#[test]
fn default_manifest_data_holds_single_member() {
    let data = ara::toml::default_data();
    assert_eq!(data.workspace.members, vec!["axum".to_string()]);
}

#[test]
fn tree_collects_leaves_depth_first() {
    let mut root = Node::new();
    root.add_key("/proj");
    let mut child = Node::new();
    child.add_key("/proj/src");
    child.add_key("/proj/src/lib.rs");
    root.add_child(child);
    root.add_key("/proj/README");
    assert_eq!(root.to_string(), "/proj");
    let tree = BTree::new(Some(root));
    assert!(tree.get_root().is_some());
    let leafs = tree.get_all_leafs();
    assert_eq!(
        leafs,
        vec![
            "/proj".to_string(),
            "/proj/README".to_string(),
            "/proj/src".to_string(),
            "/proj/src/lib.rs".to_string(),
        ],
    );
}

#[test]
fn empty_tree_has_no_leaves() {
    let tree = BTree::new(None);
    assert!(tree.get_all_leafs().is_empty());
}

#[test]
fn default_settings_values() {
    let s = Settings::new();
    assert_eq!(s.ignore, vec!["/target".to_string(), "/tests".to_string()]);
    assert!(s.function_name.is_empty());
    assert!(!s.debug);
    assert!(!s.verbose);
    assert_eq!(s.path, ".");
}

#[test]
fn setters_adjust_the_configuration() {
    let mut a = Ara::new();
    a.ignore(vec!["/skip".to_string()]);
    a.function_name(vec!["main".to_string()]);
    a.debug(true);
    a.verbose(true);
    a.path("/proj".to_string());
    assert_eq!(a.settings.ignore, vec!["/skip".to_string()]);
    assert_eq!(a.settings.function_name, vec!["main".to_string()]);
    assert!(a.settings.debug);
    assert!(a.settings.verbose);
    assert_eq!(a.settings.path, "/proj");
    assert!(a.state.graph.nodes.is_empty());
}
