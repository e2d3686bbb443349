use ara::stack::Stack;
use ara::state::State;

#[test]
fn first_segment_becomes_root() {
    let mut st = Stack::new();
    assert_eq!(st.group_layer, 1);
    st.insert("a".to_string());
    assert_eq!(st.root, "a");
    assert!(st.stack.is_empty());
}

#[test]
fn later_segments_accumulate_at_group_depth() {
    let mut st = Stack::new();
    st.insert("a".to_string());
    st.insert("b".to_string());
    assert_eq!(st.stack.len(), 1);
    assert_eq!(st.stack[0].layer, 1);
    assert_eq!(st.stack[0].path, "b");
    st.insert("c".to_string());
    assert_eq!(st.stack.len(), 1);
    assert_eq!(st.stack[0].path, "b::c");
}

#[test]
fn get_with_last_composes_full_path() {
    let mut st = Stack::new();
    assert_eq!(st.get_with_last("solo"), "solo");
    st.insert("a".to_string());
    assert_eq!(st.get_with_last("b"), "a::b");
    st.add_layer();
    st.insert("c".to_string());
    assert_eq!(st.get_with_last("d"), "a::c::d");
}

#[test]
fn clear_layer_discards_that_depth() {
    let mut st = Stack::new();
    st.insert("a".to_string());
    st.add_layer();
    assert_eq!(st.group_layer, 2);
    st.insert("c".to_string());
    st.clear_layer();
    assert_eq!(st.group_layer, 1);
    assert!(st.stack.is_empty());
    assert_eq!(st.get_with_last("b"), "a::b");
}

#[test]
fn pop_stack_discards_without_changing_depth() {
    let mut st = Stack::new();
    st.insert("a".to_string());
    st.insert("b".to_string());
    st.pop_stack();
    assert_eq!(st.group_layer, 1);
    assert!(st.stack.is_empty());
}

#[test]
fn clear_restores_fresh_stack() {
    let mut st = Stack::new();
    st.insert("a".to_string());
    st.add_layer();
    st.insert("b".to_string());
    st.clear();
    assert_eq!(st.root, "");
    assert!(st.stack.is_empty());
    assert_eq!(st.group_layer, 1);
}

#[test]
fn state_records_libraries_through_the_stack() {
    let mut s = State::new();
    s.use_stack.insert("a".to_string());
    s.add_new_lib("b");
    assert_eq!(s.current_libs, vec!["a::b".to_string()]);
    s.clear_libs();
    assert!(s.current_libs.is_empty());
}

#[test]
fn state_collects_workspace_members() {
    let mut s = State::new();
    s.add_workspace_lib("core".to_string());
    s.add_workspace_lib("cli".to_string());
    assert_eq!(s.workspace_libs, vec!["core".to_string(), "cli".to_string()]);
}

#[test]
fn current_file_is_normalized_to_module_name() {
    let mut s = State::new();
    s.update_current_file("/proj/src/foo.rs".to_string(), "/proj");
    assert_eq!(s.current_file, "foo");
    s.update_current_file("/proj/src/util/mod.rs".to_string(), "/proj");
    assert_eq!(s.current_file, "util");
}
