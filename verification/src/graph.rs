//! The graph engine: owns the node and edge lists and the attachment stack
//! of [`Layer`] breadcrumbs, and resolves, for every newly inserted node,
//! which earlier node it is wired to.  The offset-resolution algorithm in
//! [`Graph::get_offset`] is the heart of the system.
use vstd::prelude::*;
use crate::edge::Edge;
use crate::layer::Layer;
use crate::node::{Node, NodeType, NodeV};
use crate::strutil::str_eq;

verus! {

/// Mathematical image of a [`Graph`].
pub ghost struct GraphV {
    pub nodes: Seq<NodeV>,
    pub edges: Seq<Edge>,
    pub calls: Seq<Layer>,
    pub layer: i16,
    pub layer_args: i16,
}

/// Index of the first node at or after position `i` whose id is `id`.
pub open spec fn find_from(nodes: Seq<NodeV>, id: i16, i: int) -> Option<int>
    decreases nodes.len() - i,
{
    if i < 0 || i >= nodes.len() {
        None
    } else if nodes[i].id == id {
        Some(i)
    } else {
        find_from(nodes, id, i + 1)
    }
}

/// Index of the first node whose id is `id`, the way a forward scan of the
/// node list finds it.
pub open spec fn find_node_at(nodes: Seq<NodeV>, id: i16) -> Option<int> {
    find_from(nodes, id, 0)
}

/// Id recorded by the first stack entry at or after position `i` whose
/// nesting depth is `layer`.
pub open spec fn first_layer_from(calls: Seq<Layer>, layer: i16, i: int) -> Option<i16>
    decreases calls.len() - i,
{
    if i < 0 || i >= calls.len() {
        None
    } else if calls[i].layer == layer {
        Some(calls[i].id)
    } else {
        first_layer_from(calls, layer, i + 1)
    }
}

/// Outcome of the backward receiver scan for a method-call node.
pub enum OffsetScan {
    /// A stack entry of kind Local or Call at the method's own depth
    /// coordinates was found.
    Found(Layer),
    /// An entry's node id resolved to no node; resolution gives up.
    Halted,
    /// The scan ran off the bottom of the stack without a match; a method
    /// node without a matching receiver gets no attachment point.
    Exhausted,
}

/// Backward scan from stack position `i` for the most recent entry whose
/// node kind is Local or Call and whose depth coordinates equal those of
/// `last`, the entry of the method node being attached.
pub open spec fn method_scan(g: GraphV, last: Layer, i: int) -> OffsetScan
    decreases i + 1,
{
    if i < 0 || i >= g.calls.len() {
        OffsetScan::Exhausted
    } else {
        match find_node_at(g.nodes, g.calls[i].id) {
            None => OffsetScan::Halted,
            Some(ni) => {
                if (g.nodes[ni].node_type == NodeType::Local || g.nodes[ni].node_type
                    == NodeType::Call) && g.calls[i].args == last.args && g.calls[i].layer
                    == last.layer {
                    OffsetScan::Found(g.calls[i])
                } else {
                    method_scan(g, last, i - 1)
                }
            },
        }
    }
}

/// Forward scan for the general attachment rule, from position `i`: the
/// first boundary where the argument depth changes while the block depth
/// stays equal anchors the attachment; failing that, the second-to-last
/// entry does.  A stack of fewer than two entries anchors nothing.
pub open spec fn general_offset_from(calls: Seq<Layer>, i: int) -> Option<Layer>
    decreases calls.len() - i,
{
    if i < 0 || calls.len() < 2 {
        None
    } else if i + 1 >= calls.len() {
        Some(calls[calls.len() - 2])
    } else if calls[i].args != calls[i + 1].args && calls[i].layer == calls[i + 1].layer {
        Some(calls[i])
    } else {
        general_offset_from(calls, i + 1)
    }
}

/// The attachment point the engine resolves for the most recently pushed
/// node: the receiver-matching rule for a method node, the
/// argument-boundary rule otherwise.
pub open spec fn offset_of(g: GraphV) -> Option<Layer> {
    if g.calls.len() == 0 {
        None
    } else {
        let last = g.calls.last();
        match find_node_at(g.nodes, last.id) {
            None => None,
            Some(ni) => {
                if g.nodes[ni].node_type == NodeType::Method {
                    match method_scan(g, last, g.calls.len() - 1) {
                        OffsetScan::Found(l) => Some(l),
                        OffsetScan::Halted => None,
                        OffsetScan::Exhausted => None,
                    }
                } else {
                    general_offset_from(g.calls, 0)
                }
            },
        }
    }
}

/// Insertion: the node takes the next id, and a breadcrumb with the
/// current depths is pushed beside it.
pub open spec fn add_node_g(g: GraphV, n: NodeV) -> GraphV {
    let id = g.nodes.len() as i16;
    GraphV {
        nodes: g.nodes.push(NodeV { id, ..n }),
        calls: g.calls.push(Layer { id, layer: g.layer, args: g.layer_args }),
        ..g
    }
}

/// Edge insertion: wires the resolved attachment point to `to`, or does
/// nothing when none resolves.
pub open spec fn add_edge_g(g: GraphV, to: i16) -> GraphV {
    match offset_of(g) {
        None => g,
        Some(l) => GraphV { edges: g.edges.push(Edge { from: l.id, to }), ..g },
    }
}

/// Attaches a literal to the node of the most recent stack entry, or does
/// nothing when the stack is empty or the id resolves to no node.
pub open spec fn add_literal_g(g: GraphV, lit: Seq<char>) -> GraphV {
    if g.calls.len() == 0 {
        g
    } else {
        match find_node_at(g.nodes, g.calls.last().id) {
            None => g,
            Some(i) => GraphV {
                nodes: g.nodes.update(i, NodeV { literal: Some(lit), ..g.nodes[i] }),
                ..g
            },
        }
    }
}

/// Attaches a binding name to the node of the earliest stack entry at the
/// current depth, or does nothing when none exists.
pub open spec fn add_local_g(g: GraphV, name: Seq<char>) -> GraphV {
    match first_layer_from(g.calls, g.layer, 0) {
        None => g,
        Some(id) => match find_node_at(g.nodes, id) {
            None => g,
            Some(i) => GraphV {
                nodes: g.nodes.update(i, NodeV { local: name, ..g.nodes[i] }),
                ..g
            },
        },
    }
}

/// Some stored node carries `name` as its binding name.
pub open spec fn local_exists_g(nodes: Seq<NodeV>, name: Seq<char>) -> bool {
    exists|i: int| 0 <= i < nodes.len() && nodes[i].local == name
}

/// The stack entries not recorded at depth `layer`, in their original
/// relative order.
pub open spec fn retain_other_layers(calls: Seq<Layer>, layer: i16) -> Seq<Layer>
    decreases calls.len(),
{
    if calls.len() == 0 {
        Seq::<Layer>::empty()
    } else if calls.last().layer != layer {
        retain_other_layers(calls.drop_last(), layer).push(calls.last())
    } else {
        retain_other_layers(calls.drop_last(), layer)
    }
}

/// Statement cleanup: drops exactly the stack entries recorded at the
/// current depth, keeping all others in order.
pub open spec fn clear_layer_g(g: GraphV) -> GraphV {
    GraphV { calls: retain_other_layers(g.calls, g.layer), ..g }
}

/// Owns the nodes, the edges, the attachment stack and the two depth
/// counters.  Nodes and edges persist for the run; the stack is pruned per
/// statement and cleared per function.
#[derive(Debug)]
pub struct Graph {
    pub nodes: Vec<Node>,
    pub edges: Vec<Edge>,
    pub calls: Vec<Layer>,
    pub layer: i16,
    pub layer_args: i16,
}

impl View for Graph {
    type V = GraphV;

    open spec fn view(&self) -> GraphV {
        GraphV {
            nodes: self.nodes.deep_view(),
            edges: self.edges@,
            calls: self.calls@,
            layer: self.layer,
            layer_args: self.layer_args,
        }
    }
}

impl Graph {
    /// An empty graph at depth zero.
    pub fn new() -> (g: Graph)
        ensures
            g@ == (GraphV {
                nodes: Seq::<NodeV>::empty(),
                edges: Seq::<Edge>::empty(),
                calls: Seq::<Layer>::empty(),
                layer: 0,
                layer_args: 0,
            }),
    {
        let g = Graph { nodes: Vec::new(), edges: Vec::new(), calls: Vec::new(), layer: 0, layer_args: 0 };
        proof {
            assert(g.nodes.deep_view() =~= Seq::<NodeV>::empty());
        }
        g
    }

    /// Adds a node to the graph, assigning it the next id and recording
    /// its breadcrumb, and returns the id it received.
    pub fn add_node(&mut self, node: Node) -> (id: i16)
        requires
            old(self)@.nodes.len() <= i16::MAX,
        ensures
            final(self)@ == add_node_g(old(self)@, node@),
            id as int == old(self)@.nodes.len(),
    {
        let mut node = node;
        let id = self.get_node_len();
        node.update_id(id);
        self.calls.push(Layer::new(id, self.layer, self.layer_args));
        self.nodes.push(node);
        proof {
            assert(self.nodes.deep_view() =~= add_node_g(old(self)@, node@).nodes);
        }
        id
    }

    /// Wires the resolved attachment point to the node `to`; a stack from
    /// which no attachment point resolves leaves the edges unchanged.
    pub fn add_edge(&mut self, to: i16)
        ensures
            final(self)@ == add_edge_g(old(self)@, to),
    {
        let from = match self.get_offset() {
            Some(offset) => offset,
            None => {
                return ;
            },
        };
        self.edges.push(Edge::new(from.id, to));
    }

    /// Attaches a literal to the node referenced by the most recent stack
    /// entry; an empty stack leaves the graph unchanged.
    pub fn add_literal(&mut self, literal: &str)
        ensures
            final(self)@ == add_literal_g(old(self)@, literal@),
    {
        let layer_id = match self.get_last_layer() {
            Some(layer) => layer.id,
            None => {
                return ;
            },
        };
        if let Some(i) = self.get_node_mut(layer_id) {
            self.nodes[i].add_literal(literal);
            proof {
                assert(self.nodes.deep_view() =~= old(self).nodes.deep_view().update(
                    i as int,
                    self.nodes[i as int]@,
                ));
            }
        }
    }

    /// Attaches a binding name to the first node created at the current
    /// depth; no such node leaves the graph unchanged.
    pub fn add_local(&mut self, local: &str)
        ensures
            final(self)@ == add_local_g(old(self)@, local@),
    {
        let node_id = match self.get_first() {
            Some(id) => id,
            None => {
                return ;
            },
        };
        if let Some(i) = self.get_node_mut(node_id) {
            self.nodes[i].add_local(local);
            proof {
                assert(self.nodes.deep_view() =~= old(self).nodes.deep_view().update(
                    i as int,
                    self.nodes[i as int]@,
                ));
            }
        }
    }

    /// Resolves the attachment point for the most recently pushed node.
    pub fn get_offset(&self) -> (r: Option<Layer>)
        ensures
            r == offset_of(self@),
    {
        let last = match self.get_last_layer() {
            Some(l) => l,
            None => {
                return None;
            },
        };
        let last_idx = match self.get_node_mut(last.id) {
            Some(i) => i,
            None => {
                return None;
            },
        };
        if self.nodes[last_idx].node_type == NodeType::Method {
            let ghost gv = self@;
            let mut i: usize = self.calls.len();
            while i > 0
                invariant
                    i <= self@.calls.len(),
                    gv == self@,
                    0 < self@.calls.len(),
                    last == self@.calls.last(),
                    last_idx < self@.nodes.len(),
                    find_node_at(self@.nodes, last.id) == Some(last_idx as int),
                    self@.nodes[last_idx as int].node_type == NodeType::Method,
                    method_scan(gv, last, self@.calls.len() - 1) == method_scan(
                        gv,
                        last,
                        i as int - 1,
                    ),
                decreases i,
            {
                let c = self.calls[i - 1];
                match self.get_node_mut(c.id) {
                    None => {
                        proof {
                            assert(method_scan(gv, last, i as int - 1) == OffsetScan::Halted);
                        }
                        return None;
                    },
                    Some(ni) => {
                        let nt = self.nodes[ni].node_type;
                        if (nt == NodeType::Local || nt == NodeType::Call) && c.args == last.args
                            && c.layer == last.layer {
                            proof {
                                assert(self@.nodes[ni as int].node_type == nt);
                                assert(method_scan(gv, last, i as int - 1) == OffsetScan::Found(c));
                            }
                            return Some(c);
                        }
                        proof {
                            assert(self@.nodes[ni as int].node_type == nt);
                            assert(method_scan(gv, last, i as int - 1) == method_scan(
                                gv,
                                last,
                                i as int - 2,
                            ));
                        }
                    },
                }
                i = i - 1;
            }
            return None;
        }
        self.general_offset()
    }

    /// The forward argument-boundary scan of the attachment algorithm.
    fn general_offset(&self) -> (r: Option<Layer>)
        ensures
            r == general_offset_from(self@.calls, 0),
    {
        if self.calls.len() < 2 {
            return None;
        }
        let mut i: usize = 0;
        while i < self.calls.len() - 1
            invariant
                i + 1 <= self@.calls.len(),
                2 <= self@.calls.len(),
                general_offset_from(self@.calls, 0) == general_offset_from(self@.calls, i as int),
            decreases self@.calls.len() - i,
        {
            if self.calls[i].args != self.calls[i + 1].args && self.calls[i].layer == self.calls[i
                + 1].layer {
                return Some(self.calls[i]);
            }
            i = i + 1;
        }
        Some(self.calls[self.calls.len() - 2])
    }

    /// The most recent attachment-stack entry.
    pub fn get_last_layer(&self) -> (r: Option<Layer>)
        ensures
            r == if self@.calls.len() == 0 {
                Option::<Layer>::None
            } else {
                Some(self@.calls.last())
            },
    {
        if self.calls.len() == 0 {
            None
        } else {
            Some(self.calls[self.calls.len() - 1])
        }
    }

    /// Id of the earliest stack entry recorded at the current depth.
    pub fn get_first(&self) -> (r: Option<i16>)
        ensures
            r == first_layer_from(self@.calls, self@.layer, 0),
    {
        let mut i: usize = 0;
        while i < self.calls.len()
            invariant
                i <= self@.calls.len(),
                first_layer_from(self@.calls, self@.layer, 0) == first_layer_from(
                    self@.calls,
                    self@.layer,
                    i as int,
                ),
            decreases self@.calls.len() - i,
        {
            if self.calls[i].layer == self.layer {
                return Some(self.calls[i].id);
            }
            i = i + 1;
        }
        None
    }

    /// Position in the node list of the node with this id, so a caller can
    /// mutate that node in place.
    pub fn get_node_mut(&self, id: i16) -> (r: Option<usize>)
        ensures
            match (r, find_node_at(self@.nodes, id)) {
                (Some(i), Some(j)) => i as int == j && j < self@.nodes.len(),
                (None, None) => true,
                _ => false,
            },
    {
        let mut i: usize = 0;
        while i < self.nodes.len()
            invariant
                i <= self@.nodes.len(),
                find_node_at(self@.nodes, id) == find_from(self@.nodes, id, i as int),
            decreases self@.nodes.len() - i,
        {
            if self.nodes[i].id == id {
                return Some(i);
            }
            i = i + 1;
        }
        None
    }

    /// The node with this id, if any.
    pub fn get_node(&self, id: i16) -> (r: Option<&Node>)
        ensures
            match (r, find_node_at(self@.nodes, id)) {
                (Some(n), Some(j)) => n@ == self@.nodes[j],
                (None, None) => true,
                _ => false,
            },
    {
        match self.get_node_mut(id) {
            Some(i) => Some(&self.nodes[i]),
            None => None,
        }
    }

    /// Depth of the attachment stack.
    pub fn get_depth(&self) -> (r: i16)
        requires
            self@.calls.len() <= i16::MAX,
        ensures
            r as int == self@.calls.len(),
    {
        self.calls.len() as i16
    }

    /// Number of nodes stored so far; the id the next insertion takes.
    pub fn get_node_len(&self) -> (r: i16)
        requires
            self@.nodes.len() <= i16::MAX,
        ensures
            r as int == self@.nodes.len(),
    {
        self.nodes.len() as i16
    }

    /// Whether any stored node carries `local` as its binding name.
    pub fn local_exists(&self, local: &str) -> (r: bool)
        ensures
            r == local_exists_g(self@.nodes, local@),
    {
        let mut i: usize = 0;
        while i < self.nodes.len()
            invariant
                i <= self@.nodes.len(),
                forall|k: int| 0 <= k < i ==> self@.nodes[k].local != local@,
            decreases self@.nodes.len() - i,
        {
            if str_eq(self.nodes[i].local.as_str(), local) {
                assert(self@.nodes[i as int].local == local@);
                return true;
            }
            i = i + 1;
        }
        false
    }

    /// Drops exactly the stack entries recorded at the current depth,
    /// keeping every other entry in its original relative order.
    pub fn clear_calls_layer(&mut self)
        ensures
            final(self)@ == clear_layer_g(old(self)@),
    {
        let mut kept: Vec<Layer> = Vec::new();
        proof {
            assert(old(self)@.calls.take(0) =~= Seq::<Layer>::empty());
        }
        let mut i: usize = 0;
        while i < self.calls.len()
            invariant
                i <= self@.calls.len(),
                self@ == old(self)@,
                kept@ == retain_other_layers(old(self)@.calls.take(i as int), old(self)@.layer),
            decreases self@.calls.len() - i,
        {
            proof {
                assert(old(self)@.calls.take(i + 1).drop_last() =~= old(self)@.calls.take(i as int));
                assert(old(self)@.calls.take(i + 1).last() == old(self)@.calls[i as int]);
            }
            if self.calls[i].layer != self.layer {
                kept.push(self.calls[i]);
            }
            i = i + 1;
        }
        proof {
            assert(old(self)@.calls.take(self@.calls.len() as int) =~= old(self)@.calls);
        }
        self.calls = kept;
    }

    /// Empties the attachment stack entirely; nodes and edges stay.
    pub fn clear_calls(&mut self)
        ensures
            final(self)@ == (GraphV { calls: Seq::<Layer>::empty(), ..old(self)@ }),
    {
        self.calls.clear();
    }

    /// Entering a nested block.
    pub fn increase_layer(&mut self)
        requires
            old(self)@.layer < i16::MAX,
        ensures
            final(self)@ == (GraphV { layer: (old(self)@.layer + 1) as i16, ..old(self)@ }),
    {
        self.layer = self.layer + 1;
    }

    /// Leaving a nested block.
    pub fn decrease_layer(&mut self)
        requires
            old(self)@.layer > i16::MIN,
        ensures
            final(self)@ == (GraphV { layer: (old(self)@.layer - 1) as i16, ..old(self)@ }),
    {
        self.layer = self.layer - 1;
    }

    /// Entering an argument list, tuple or parenthesized group.
    pub fn increase_layer_args(&mut self)
        requires
            old(self)@.layer_args < i16::MAX,
        ensures
            final(self)@ == (GraphV { layer_args: (old(self)@.layer_args + 1) as i16, ..old(self)@ }),
    {
        self.layer_args = self.layer_args + 1;
    }

    /// Leaving an argument list, tuple or parenthesized group.
    pub fn decrease_layer_args(&mut self)
        requires
            old(self)@.layer_args > i16::MIN,
        ensures
            final(self)@ == (GraphV { layer_args: (old(self)@.layer_args - 1) as i16, ..old(self)@ }),
    {
        self.layer_args = self.layer_args - 1;
    }
}

/// Ids are the insertion indexes: the node stored at position `i` carries
/// id `i`.
pub open spec fn ids_are_indexes(g: GraphV) -> bool {
    forall|i: int| 0 <= i < g.nodes.len() ==> g.nodes[i].id as int == i
}

/// What a successful id search guarantees about its result: the index is
/// in range and the node there carries the id searched for.
pub proof fn lemma_find_from_range(nodes: Seq<NodeV>, id: i16, j: int, i: int)
    requires
        find_from(nodes, id, j) == Some(i),
    ensures
        j <= i < nodes.len(),
        nodes[i].id == id,
    decreases nodes.len() - j,
{
    if j < 0 || j >= nodes.len() {
    } else if nodes[j].id == id {
    } else {
        lemma_find_from_range(nodes, id, j + 1, i);
    }
}

/// Node insertion assigns ids in insertion order and pushes one stack
/// entry per node: from any state where `nodes[i].id == i` and the stack
/// and node list have equal length, both properties hold again right after
/// the insertion, for every node inserted.
pub proof fn lemma_add_node_ids(g: GraphV, n: NodeV)
    requires
        ids_are_indexes(g),
        g.calls.len() == g.nodes.len(),
        g.nodes.len() <= i16::MAX,
    ensures
        ids_are_indexes(add_node_g(g, n)),
        add_node_g(g, n).calls.len() == add_node_g(g, n).nodes.len(),
        add_node_g(g, n).nodes.len() == g.nodes.len() + 1,
        add_node_g(g, n).nodes.last().id as int == g.nodes.len(),
{
    let ns = add_node_g(g, n).nodes;
    assert forall|i: int| 0 <= i < ns.len() implies ns[i].id as int == i by {
        if i < g.nodes.len() {
            assert(ns[i] == g.nodes[i]);
        }
    }
}

/// A binding registration that found its target makes `local_exists` true
/// for that name: the node the search resolved has its `local` set.
pub proof fn lemma_add_local_sets_local(g: GraphV, name: Seq<char>, id: i16, i: int)
    requires
        first_layer_from(g.calls, g.layer, 0) == Some(id),
        find_node_at(g.nodes, id) == Some(i),
    ensures
        local_exists_g(add_local_g(g, name).nodes, name),
{
    lemma_find_from_range(g.nodes, id, 0, i);
    let ns = add_local_g(g, name).nodes;
    assert(ns[i].local == name);
}

/// Inserting a node whose `local` field differs from `name` neither makes
/// nor unmakes `local_exists(name)`: fresh nodes carry no binding name, so
/// only a binding registration can introduce one.
pub proof fn lemma_add_node_keeps_local_exists(g: GraphV, n: NodeV, name: Seq<char>)
    requires
        n.local != name,
    ensures
        local_exists_g(add_node_g(g, n).nodes, name) == local_exists_g(g.nodes, name),
{
    let ns = add_node_g(g, n).nodes;
    assert(forall|i: int| 0 <= i < g.nodes.len() ==> ns[i] == g.nodes[i]);
    if local_exists_g(g.nodes, name) {
        let i = choose|i: int| 0 <= i < g.nodes.len() && g.nodes[i].local == name;
        assert(ns[i].local == name);
        assert(local_exists_g(ns, name));
    }
    if local_exists_g(ns, name) {
        let i = choose|i: int| 0 <= i < ns.len() && ns[i].local == name;
        assert(ns[g.nodes.len() as int].local == n.local);
        assert(i < g.nodes.len());
        assert(g.nodes[i].local == name);
        assert(local_exists_g(g.nodes, name));
    }
}

/// Attaching a literal changes no node's binding name, so it never
/// changes `local_exists` either.
pub proof fn lemma_add_literal_keeps_local_exists(g: GraphV, lit: Seq<char>, name: Seq<char>)
    ensures
        local_exists_g(add_literal_g(g, lit).nodes, name) == local_exists_g(g.nodes, name),
{
    let ns = add_literal_g(g, lit).nodes;
    if g.calls.len() == 0 {
    } else {
        match find_node_at(g.nodes, g.calls.last().id) {
            None => {},
            Some(i) => {
                lemma_find_from_range(g.nodes, g.calls.last().id, 0, i);
                assert(forall|k: int|
                    0 <= k < g.nodes.len() ==> ns[k].local == g.nodes[k].local);
                if local_exists_g(g.nodes, name) {
                    let k = choose|k: int|
                        0 <= k < g.nodes.len() && g.nodes[k].local == name;
                    assert(ns[k].local == name);
                }
                if local_exists_g(ns, name) {
                    let k = choose|k: int| 0 <= k < ns.len() && ns[k].local == name;
                    assert(g.nodes[k].local == name);
                }
            },
        }
    }
}

/// The statement cleanup keeps exactly the entries recorded at other
/// depths: it is the plain filter by depth, so every kept entry's depth
/// differs from the cleared one and the kept entries stand in their
/// original relative order.
pub proof fn lemma_retain_is_filter(calls: Seq<Layer>, layer: i16)
    ensures
        retain_other_layers(calls, layer) == calls.filter(|l: Layer| l.layer != layer),
    decreases calls.len(),
{
    reveal(Seq::filter);
    if calls.len() == 0 {
        assert(calls.filter(|l: Layer| l.layer != layer) =~= Seq::<Layer>::empty());
    } else {
        lemma_retain_is_filter(calls.drop_last(), layer);
    }
}

/// A stack of fewer than two entries resolves no attachment point,
/// whatever the nodes look like.
pub proof fn lemma_offset_short_stack(g: GraphV)
    requires
        g.calls.len() < 2,
    ensures
        offset_of(g) is None,
{
    if g.calls.len() == 1 {
        let last = g.calls.last();
        match find_node_at(g.nodes, last.id) {
            None => {},
            Some(ni) => {
                lemma_find_from_range(g.nodes, last.id, 0, ni);
                if g.nodes[ni].node_type == NodeType::Method {
                    assert(method_scan(g, last, 0) == method_scan(g, last, -1));
                }
            },
        }
    }
}

/// On a two-entry stack whose entries share the block depth but differ in
/// argument depth, with a most recent node that is no method, resolution
/// anchors at the first entry.
pub proof fn lemma_offset_two_entries(g: GraphV, ni: int)
    requires
        g.calls.len() == 2,
        g.calls[0].layer == g.calls[1].layer,
        g.calls[0].args != g.calls[1].args,
        find_node_at(g.nodes, g.calls[1].id) == Some(ni),
        g.nodes[ni].node_type != NodeType::Method,
    ensures
        offset_of(g) == Some(g.calls[0]),
{
    lemma_find_from_range(g.nodes, g.calls[1].id, 0, ni);
    assert(g.calls.last() == g.calls[1]);
    assert(general_offset_from(g.calls, 0) == Some(g.calls[0]));
}

/// Method-receiver resolution: with an entry whose node kind is Call or
/// Local followed by an entry whose node is a method, both at the same
/// depth coordinates, resolution returns the earlier entry.
pub proof fn lemma_offset_method_receiver(g: GraphV, na: int, nb: int)
    requires
        g.calls.len() == 2,
        find_node_at(g.nodes, g.calls[0].id) == Some(na),
        find_node_at(g.nodes, g.calls[1].id) == Some(nb),
        g.nodes[na].node_type == NodeType::Call || g.nodes[na].node_type == NodeType::Local,
        g.nodes[nb].node_type == NodeType::Method,
        g.calls[0].layer == g.calls[1].layer,
        g.calls[0].args == g.calls[1].args,
    ensures
        offset_of(g) == Some(g.calls[0]),
{
    lemma_find_from_range(g.nodes, g.calls[0].id, 0, na);
    lemma_find_from_range(g.nodes, g.calls[1].id, 0, nb);
    let last = g.calls.last();
    assert(last == g.calls[1]);
    assert(method_scan(g, last, 1) == method_scan(g, last, 0));
    assert(method_scan(g, last, 0) == OffsetScan::Found(g.calls[0]));
}

} // verus!
