//! Nodes of the call graph: one recorded syntactic element of interest,
//! with its display key, kind, and the optional local-binding name, literal
//! text and doc comments attached to it after insertion.
use vstd::prelude::*;

verus! {

/// The closed set of node kinds; the kind decides rendering and, in the
/// attachment algorithm, whether an entry can serve as a method receiver.
#[derive(Clone, Copy, Debug, PartialEq, Eq, Structural)]
pub enum NodeType {
    Function,
    Method,
    Call,
    Macro,
    Local,
    Struct,
    Paren,
    Tuple,
}

/// Mathematical image of a [`Node`]: strings become character sequences.
pub ghost struct NodeV {
    pub id: i16,
    pub key: Seq<char>,
    pub local: Seq<char>,
    pub literal: Option<Seq<char>>,
    pub doc: Seq<Seq<char>>,
    pub node_type: NodeType,
}

/// One syntactic element recorded in the graph.  `id` is assigned by the
/// graph at insertion time; `local` and `literal` are the only fields
/// mutated after insertion, through the graph engine.
#[derive(Clone, Debug, PartialEq)]
pub struct Node {
    pub id: i16,
    pub key: String,
    pub local: String,
    pub literal: Option<String>,
    pub doc: Vec<String>,
    pub node_type: NodeType,
}

impl View for Node {
    type V = NodeV;

    open spec fn view(&self) -> NodeV {
        NodeV {
            id: self.id,
            key: self.key@,
            local: self.local@,
            literal: match self.literal {
                Some(s) => Some(s@),
                None => None,
            },
            doc: self.doc.deep_view(),
            node_type: self.node_type,
        }
    }
}

impl DeepView for Node {
    type V = NodeV;

    open spec fn deep_view(&self) -> NodeV {
        self.view()
    }
}

impl Node {
    /// A fresh node: id zero until the graph assigns one, no local, no
    /// literal, no doc comments.
    pub fn new(key: &str, node_type: NodeType) -> (n: Node)
        ensures
            n@ == (NodeV {
                id: 0,
                key: key@,
                local: Seq::<char>::empty(),
                literal: None,
                doc: Seq::<Seq<char>>::empty(),
                node_type,
            }),
    {
        let n = Node {
            id: 0,
            key: key.to_owned(),
            local: String::new(),
            literal: None,
            doc: Vec::new(),
            node_type,
        };
        proof {
            assert(n.doc.deep_view() =~= Seq::<Seq<char>>::empty());
        }
        n
    }

    pub fn update_id(&mut self, id: i16)
        ensures
            final(self)@ == (NodeV { id, ..old(self)@ }),
    {
        self.id = id;
    }

    pub fn add_local(&mut self, local: &str)
        ensures
            final(self)@ == (NodeV { local: local@, ..old(self)@ }),
    {
        self.local = local.to_owned();
    }

    pub fn add_literal(&mut self, literal: &str)
        ensures
            final(self)@ == (NodeV { literal: Some(literal@), ..old(self)@ }),
    {
        self.literal = Some(literal.to_owned());
    }

    pub fn add_comments(&mut self, doc: Vec<String>)
        ensures
            final(self)@ == (NodeV { doc: doc.deep_view(), ..old(self)@ }),
    {
        self.doc = doc;
    }
}

} // verus!
