//! The file tree the enumeration builds: each node holds the paths
//! collected at one directory and one child node per subdirectory, and the
//! tree hands back every recorded path in depth-first order.
use vstd::prelude::*;

verus! {

/// One directory's worth of recorded paths and subdirectories.
#[derive(Debug)]
pub struct Node {
    pub keys: Vec<String>,
    pub children: Vec<Node>,
}

/// Number of nodes in a tree, counting the node itself; the recursion
/// measure for collecting leaves.
pub open spec fn node_count(n: Node) -> nat
    decreases n,
{
    1 + nodes_count(n.children@)
}

pub open spec fn nodes_count(ns: Seq<Node>) -> nat
    decreases ns,
{
    if ns.len() == 0 {
        0
    } else {
        node_count(ns[0]) + nodes_count(ns.drop_first())
    }
}

/// Every path a tree records, in depth-first order: the node's own keys
/// first, then each child's paths in order.
pub open spec fn leaves_of(n: Node) -> Seq<Seq<char>>
    decreases n,
{
    n.keys.deep_view() + leaves_of_list(n.children@)
}

pub open spec fn leaves_of_list(ns: Seq<Node>) -> Seq<Seq<char>>
    decreases ns,
{
    if ns.len() == 0 {
        Seq::<Seq<char>>::empty()
    } else {
        leaves_of(ns[0]) + leaves_of_list(ns.drop_first())
    }
}

/// Prefix decomposition of a child list's node count.
proof fn lemma_nodes_count_take(ns: Seq<Node>, i: int)
    requires
        0 <= i < ns.len(),
    ensures
        nodes_count(ns.take(i + 1)) == nodes_count(ns.take(i)) + node_count(ns[i]),
        nodes_count(ns.take(i + 1)) <= nodes_count(ns),
    decreases i,
{
    if i == 0 {
        assert(ns.take(0) =~= Seq::<Node>::empty());
        assert(nodes_count(Seq::<Node>::empty()) == 0);
        assert(ns.take(1).drop_first() =~= Seq::<Node>::empty());
        assert(ns.take(1)[0] == ns[0]);
        assert(nodes_count(ns.take(1)) == node_count(ns[0]) + nodes_count(ns.take(1).drop_first()));
        assert(nodes_count(ns) == node_count(ns[0]) + nodes_count(ns.drop_first()));
    } else {
        lemma_nodes_count_take(ns.drop_first(), i - 1);
        assert(ns.take(i + 1).drop_first() =~= ns.drop_first().take(i));
        assert(ns.take(i).drop_first() =~= ns.drop_first().take(i - 1));
        assert(ns.take(i + 1)[0] == ns[0]);
        assert(ns.take(i)[0] == ns[0]);
        assert(nodes_count(ns.take(i + 1)) == node_count(ns[0]) + nodes_count(
            ns.drop_first().take(i),
        ));
        assert(nodes_count(ns.take(i)) == node_count(ns[0]) + nodes_count(
            ns.drop_first().take(i - 1),
        ));
        assert(ns.drop_first()[i - 1] == ns[i]);
        assert(nodes_count(ns) == node_count(ns[0]) + nodes_count(ns.drop_first()));
    }
}

/// The leaves of one more child extend the leaves collected so far.
proof fn lemma_leaves_take(ns: Seq<Node>, i: int)
    requires
        0 <= i < ns.len(),
    ensures
        leaves_of_list(ns.take(i + 1)) == leaves_of_list(ns.take(i)) + leaves_of(ns[i]),
    decreases i,
{
    if i == 0 {
        assert(ns.take(0) =~= Seq::<Node>::empty());
        assert(leaves_of_list(Seq::<Node>::empty()) == Seq::<Seq<char>>::empty());
        assert(ns.take(1).drop_first() =~= Seq::<Node>::empty());
        assert(ns.take(1)[0] == ns[0]);
        assert(leaves_of_list(ns.take(1)) == leaves_of(ns[0]) + leaves_of_list(
            ns.take(1).drop_first(),
        ));
        assert(leaves_of(ns[0]) + Seq::<Seq<char>>::empty() =~= Seq::<Seq<char>>::empty()
            + leaves_of(ns[0]));
    } else {
        lemma_leaves_take(ns.drop_first(), i - 1);
        assert(ns.take(i + 1).drop_first() =~= ns.drop_first().take(i));
        assert(ns.take(i).drop_first() =~= ns.drop_first().take(i - 1));
        assert(ns.take(i + 1)[0] == ns[0]);
        assert(ns.take(i)[0] == ns[0]);
        assert(ns.drop_first()[i - 1] == ns[i]);
        assert(leaves_of_list(ns.take(i + 1)) == leaves_of(ns[0]) + leaves_of_list(
            ns.drop_first().take(i),
        ));
        assert(leaves_of_list(ns.take(i)) == leaves_of(ns[0]) + leaves_of_list(
            ns.drop_first().take(i - 1),
        ));
        assert((leaves_of(ns[0]) + (leaves_of_list(ns.drop_first().take(i - 1)) + leaves_of(
            ns[i],
        ))) =~= (leaves_of(ns[0]) + leaves_of_list(ns.drop_first().take(i - 1))) + leaves_of(
            ns[i],
        ));
    }
}

impl Node {
    /// A node with no paths and no children yet.
    pub fn new() -> (n: Node)
        ensures
            n.keys.deep_view() == Seq::<Seq<char>>::empty(),
            n.children@ == Seq::<Node>::empty(),
    {
        let n = Node { keys: Vec::new(), children: Vec::new() };
        proof {
            assert(n.keys.deep_view() =~= Seq::<Seq<char>>::empty());
        }
        n
    }

    /// Records one path at this node.
    pub fn add_key(&mut self, key: &str)
        ensures
            final(self).keys.deep_view() == old(self).keys.deep_view().push(key@),
            final(self).children == old(self).children,
    {
        self.keys.push(key.to_owned());
        proof {
            assert(self.keys.deep_view() =~= old(self).keys.deep_view().push(key@));
        }
    }

    /// Attaches one subdirectory's node.
    pub fn add_child(&mut self, child: Node)
        ensures
            final(self).children@ == old(self).children@.push(child),
            final(self).keys == old(self).keys,
    {
        self.children.push(child);
    }

    /// The node's display name: its first recorded path.
    pub fn to_string(&self) -> (r: String)
        requires
            self.keys@.len() > 0,
        ensures
            r@ == self.keys.deep_view()[0],
    {
        self.keys[0].clone()
    }

    /// Appends every path recorded in this subtree, depth first.
    pub fn collect_leafs(&self, leafs: &mut Vec<String>)
        ensures
            final(leafs).deep_view() == old(leafs).deep_view() + leaves_of(*self),
        decreases node_count(*self), 3int,
    {
        let ghost at_entry = leafs.deep_view();
        let mut i: usize = 0;
        while i < self.keys.len()
            invariant
                i <= self.keys@.len(),
                leafs.deep_view() == at_entry + self.keys.deep_view().take(i as int),
            decreases self.keys@.len() - i,
        {
            let ghost before = leafs.deep_view();
            leafs.push(self.keys[i].clone());
            proof {
                assert(leafs.deep_view() =~= before.push(self.keys.deep_view()[i as int]));
                assert(self.keys.deep_view().take(i + 1) =~= self.keys.deep_view().take(
                    i as int,
                ).push(self.keys.deep_view()[i as int]));
                assert(at_entry + self.keys.deep_view().take(i + 1) =~= (at_entry
                    + self.keys.deep_view().take(i as int)).push(
                    self.keys.deep_view()[i as int],
                ));
            }
            i = i + 1;
        }
        proof {
            assert(self.keys.deep_view().take(self.keys@.len() as int) =~= self.keys.deep_view());
            assert(leaves_of_list(self.children@.take(0)) =~= Seq::<Seq<char>>::empty());
            assert((at_entry + self.keys.deep_view()) + Seq::<Seq<char>>::empty() =~= at_entry
                + self.keys.deep_view());
        }
        let ghost mid = leafs.deep_view();
        let mut j: usize = 0;
        while j < self.children.len()
            invariant
                j <= self.children@.len(),
                leafs.deep_view() == mid + leaves_of_list(self.children@.take(j as int)),
                nodes_count(self.children@.take(j as int)) <= nodes_count(self.children@),
                node_count(*self) == 1 + nodes_count(self.children@),
            decreases self.children@.len() - j,
        {
            proof {
                lemma_nodes_count_take(self.children@, j as int);
            }
            let ghost before = leafs.deep_view();
            self.children[j].collect_leafs(leafs);
            proof {
                lemma_leaves_take(self.children@, j as int);
                assert((mid + leaves_of_list(self.children@.take(j as int))) + leaves_of(
                    self.children@[j as int],
                ) =~= mid + (leaves_of_list(self.children@.take(j as int)) + leaves_of(
                    self.children@[j as int],
                )));
            }
            j = j + 1;
        }
        proof {
            assert(self.children@.take(self.children@.len() as int) =~= self.children@);
            assert(at_entry + (self.keys.deep_view() + leaves_of_list(self.children@)) =~= (
            at_entry + self.keys.deep_view()) + leaves_of_list(self.children@));
        }
    }
}

/// The tree the enumeration fills: its root directory node, if any.
#[derive(Debug)]
pub struct BTree {
    pub root: Option<Node>,
}

impl BTree {
    /// A tree over the given root node.
    pub fn new(root: Option<Node>) -> (b: BTree)
        ensures
            b.root == root,
    {
        BTree { root }
    }

    /// The root node; a caller builds the root before constructing the
    /// tree, so a shared borrow suffices here.
    pub fn get_root(&self) -> (r: &Option<Node>)
        ensures
            *r == self.root,
    {
        &self.root
    }

    /// Every path recorded anywhere in the tree, in depth-first order.
    pub fn get_all_leafs(&self) -> (r: Vec<String>)
        ensures
            r.deep_view() == match self.root {
                Some(n) => leaves_of(n),
                None => Seq::<Seq<char>>::empty(),
            },
    {
        let mut leafs: Vec<String> = Vec::new();
        proof {
            assert(leafs.deep_view() =~= Seq::<Seq<char>>::empty());
        }
        if let Some(root) = &self.root {
            root.collect_leafs(&mut leafs);
            proof {
                assert(Seq::<Seq<char>>::empty() + leaves_of(*root) =~= leaves_of(*root));
            }
        }
        leafs
    }
}

} // verus!
