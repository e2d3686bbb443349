use ara::edge::Edge;
use ara::graph::Graph;
use ara::layer::Layer;
use ara::node::{Node, NodeType};

#[test]
fn ids_follow_insertion_order() {
    let mut g = Graph::new();
    for i in 0..5i16 {
        let id = g.add_node(Node::new("n", NodeType::Call));
        assert_eq!(id, i);
        assert_eq!(g.nodes[i as usize].id, i);
        assert_eq!(g.calls.len(), g.nodes.len());
    }
}

#[test]
fn insertion_records_current_depths() {
    let mut g = Graph::new();
    g.increase_layer();
    g.increase_layer_args();
    let id = g.add_node(Node::new("n", NodeType::Call));
    assert_eq!(g.calls[0], Layer { id, layer: 1, args: 1 });
}

#[test]
fn offset_on_empty_and_single_stack_is_none() {
    let mut g = Graph::new();
    assert_eq!(g.get_offset(), None);
    g.add_node(Node::new("only", NodeType::Call));
    assert_eq!(g.get_offset(), None);
}

#[test]
fn offset_two_entries_differing_args_returns_first() {
    let mut g = Graph::new();
    g.add_node(Node::new("outer", NodeType::Call));
    g.increase_layer_args();
    g.add_node(Node::new("inner", NodeType::Call));
    assert_eq!(g.get_offset(), Some(Layer { id: 0, layer: 0, args: 0 }));
}

#[test]
fn offset_two_entries_equal_args_returns_second_to_last() {
    let mut g = Graph::new();
    g.add_node(Node::new("first", NodeType::Call));
    g.add_node(Node::new("second", NodeType::Call));
    assert_eq!(g.get_offset(), Some(Layer { id: 0, layer: 0, args: 0 }));
}

#[test]
fn offset_method_finds_receiver_at_same_depths() {
    let mut g = Graph::new();
    g.increase_layer();
    g.add_node(Node::new("a", NodeType::Call));
    g.add_node(Node::new("b", NodeType::Method));
    assert_eq!(g.get_offset(), Some(Layer { id: 0, layer: 1, args: 0 }));
}

#[test]
fn offset_method_skips_entries_at_other_depths() {
    let mut g = Graph::new();
    g.increase_layer();
    g.add_node(Node::new("receiver", NodeType::Call));
    g.increase_layer_args();
    g.add_node(Node::new("argument", NodeType::Call));
    g.decrease_layer_args();
    g.add_node(Node::new("method", NodeType::Method));
    // the argument sits at args depth 1; the receiver matches the method's
    // coordinates (layer 1, args 0)
    assert_eq!(g.get_offset(), Some(Layer { id: 0, layer: 1, args: 0 }));
}

#[test]
fn offset_method_without_matching_receiver_is_none() {
    let mut g = Graph::new();
    g.add_node(Node::new("m", NodeType::Macro));
    g.increase_layer();
    g.add_node(Node::new("b", NodeType::Method));
    // no Local or Call entry shares the method's depth coordinates, so
    // resolution yields nothing rather than falling back to the forward scan
    assert_eq!(g.get_offset(), None);
}

#[test]
fn add_edge_wires_resolved_attachment() {
    let mut g = Graph::new();
    g.add_node(Node::new("callee", NodeType::Call));
    g.increase_layer_args();
    let id = g.add_node(Node::new("arg", NodeType::Call));
    g.add_edge(id);
    assert_eq!(g.edges, vec![Edge { from: 0, to: 1 }]);
}

#[test]
fn add_edge_without_attachment_is_skipped() {
    let mut g = Graph::new();
    g.add_node(Node::new("only", NodeType::Call));
    g.add_edge(0);
    assert!(g.edges.is_empty());
}

#[test]
fn add_literal_marks_most_recent_node() {
    let mut g = Graph::new();
    g.add_node(Node::new("first", NodeType::Call));
    g.add_node(Node::new("second", NodeType::Call));
    g.add_literal("42");
    assert_eq!(g.nodes[0].literal, None);
    assert_eq!(g.nodes[1].literal, Some("42".to_string()));
}

#[test]
fn add_literal_on_empty_stack_changes_nothing() {
    let mut g = Graph::new();
    g.add_literal("42");
    assert!(g.nodes.is_empty());
}

#[test]
fn add_local_marks_first_node_of_current_depth() {
    let mut g = Graph::new();
    g.add_node(Node::new("earlier", NodeType::Call));
    g.increase_layer();
    g.add_node(Node::new("binding", NodeType::Call));
    g.add_node(Node::new("later", NodeType::Call));
    g.add_local("x");
    assert_eq!(g.nodes[0].local, "");
    assert_eq!(g.nodes[1].local, "x");
    assert_eq!(g.nodes[2].local, "");
}

#[test]
fn local_exists_iff_a_registration_succeeded() {
    let mut g = Graph::new();
    assert!(!g.local_exists("x"));
    g.add_node(Node::new("n", NodeType::Call));
    assert!(!g.local_exists("x"));
    g.add_local("x");
    assert!(g.local_exists("x"));
    assert!(!g.local_exists("y"));
    // a failed registration (no node at the current depth) changes nothing
    g.increase_layer();
    g.add_local("y");
    assert!(!g.local_exists("y"));
}

#[test]
fn clear_calls_layer_removes_exactly_current_depth() {
    let mut g = Graph::new();
    g.increase_layer();
    g.add_node(Node::new("a", NodeType::Call));
    g.increase_layer();
    g.add_node(Node::new("b", NodeType::Call));
    g.decrease_layer();
    g.add_node(Node::new("c", NodeType::Call));
    // entries: (0 at layer 1), (1 at layer 2), (2 at layer 1); current layer 1
    g.clear_calls_layer();
    assert_eq!(g.calls, vec![Layer { id: 1, layer: 2, args: 0 }]);
    assert_eq!(g.nodes.len(), 3);
}

#[test]
fn clear_calls_empties_stack_but_keeps_nodes_and_edges() {
    let mut g = Graph::new();
    g.add_node(Node::new("a", NodeType::Call));
    g.increase_layer_args();
    let id = g.add_node(Node::new("b", NodeType::Call));
    g.add_edge(id);
    g.clear_calls();
    assert!(g.calls.is_empty());
    assert_eq!(g.nodes.len(), 2);
    assert_eq!(g.edges.len(), 1);
}

#[test]
fn get_node_finds_by_id() {
    let mut g = Graph::new();
    g.add_node(Node::new("a", NodeType::Call));
    g.add_node(Node::new("b", NodeType::Method));
    let n = g.get_node(1).unwrap();
    assert_eq!(n.key, "b");
    assert_eq!(n.node_type, NodeType::Method);
    assert!(g.get_node(7).is_none());
    assert_eq!(g.get_node_mut(1), Some(1));
    assert_eq!(g.get_node_mut(7), None);
}

#[test]
fn depth_counters_move_as_directed() {
    let mut g = Graph::new();
    g.increase_layer();
    g.increase_layer();
    g.decrease_layer();
    g.increase_layer_args();
    assert_eq!(g.layer, 1);
    assert_eq!(g.layer_args, 1);
    g.add_node(Node::new("n", NodeType::Call));
    assert_eq!(g.get_depth(), 1);
    assert_eq!(g.get_node_len(), 1);
    assert_eq!(g.get_last_layer(), Some(Layer { id: 0, layer: 1, args: 1 }));
    assert_eq!(g.get_first(), Some(0));
}
