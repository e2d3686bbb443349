//! The per-run state: one graph, the use-path stack, the normalized name
//! of the file being visited, and the lists of workspace and per-file
//! library names.
use vstd::prelude::*;
use crate::graph::{Graph, GraphV};
use crate::node::NodeV;
use crate::edge::Edge;
use crate::layer::Layer;
use crate::stack::{get_with_last_g, EntryV, Stack, StackV};
use crate::strutil::{remove_all, remove_all_spec};

verus! {

/// Mathematical image of a [`State`].
pub ghost struct StateV {
    pub graph: GraphV,
    pub workspace_libs: Seq<Seq<char>>,
    pub current_file: Seq<char>,
    pub current_libs: Seq<Seq<char>>,
    pub use_stack: StackV,
}

/// A file path reduced to the bare module name the graph keys nodes by:
/// the project path prefix, the source-file suffix, the source directory,
/// every path separator and the module-file stem are all struck out.
pub open spec fn normalized_file(file: Seq<char>, path: Seq<char>) -> Seq<char> {
    remove_all_spec(
        remove_all_spec(
            remove_all_spec(remove_all_spec(remove_all_spec(file, path), ".rs"@), "/src/"@),
            "/"@,
        ),
        "mod"@,
    )
}

/// The state a run starts in: an empty graph at depth zero, no recorded
/// names, a fresh use-path stack.
pub open spec fn initial_state() -> StateV {
    StateV {
        graph: GraphV {
            nodes: Seq::<NodeV>::empty(),
            edges: Seq::<Edge>::empty(),
            calls: Seq::<Layer>::empty(),
            layer: 0,
            layer_args: 0,
        },
        workspace_libs: Seq::<Seq<char>>::empty(),
        current_file: Seq::<char>::empty(),
        current_libs: Seq::<Seq<char>>::empty(),
        use_stack: StackV {
            root: Seq::<char>::empty(),
            stack: Seq::<EntryV>::empty(),
            group_layer: 1,
        },
    }
}

/// Owns the graph and the bookkeeping around it for one run.
#[derive(Debug)]
pub struct State {
    pub graph: Graph,
    pub workspace_libs: Vec<String>,
    pub current_file: String,
    pub current_libs: Vec<String>,
    pub use_stack: Stack,
}

impl View for State {
    type V = StateV;

    open spec fn view(&self) -> StateV {
        StateV {
            graph: self.graph@,
            workspace_libs: self.workspace_libs.deep_view(),
            current_file: self.current_file@,
            current_libs: self.current_libs.deep_view(),
            use_stack: self.use_stack@,
        }
    }
}

impl State {
    /// The state a run starts in: empty graph, empty lists, fresh stack.
    pub fn new() -> (s: State)
        ensures
            s@ == initial_state(),
    {
        let s = State {
            graph: Graph::new(),
            workspace_libs: Vec::new(),
            current_libs: Vec::new(),
            current_file: String::new(),
            use_stack: Stack::new(),
        };
        proof {
            assert(s.workspace_libs.deep_view() =~= Seq::<Seq<char>>::empty());
            assert(s.current_libs.deep_view() =~= Seq::<Seq<char>>::empty());
        }
        s
    }

    /// Records the fully qualified name the use-path stack spells with
    /// `lib` as its final segment among the current file's libraries.
    pub fn add_new_lib(&mut self, lib: &str)
        ensures
            final(self)@ == (StateV {
                current_libs: old(self)@.current_libs.push(
                    get_with_last_g(old(self)@.use_stack, lib@),
                ),
                ..old(self)@
            }),
    {
        let name = self.use_stack.get_with_last(lib);
        self.current_libs.push(name);
        proof {
            assert(self.current_libs.deep_view() =~= old(self).current_libs.deep_view().push(
                self.current_libs[self.current_libs.len() - 1]@,
            ));
        }
    }

    /// Forgets the libraries collected from the file just finished.
    pub fn clear_libs(&mut self)
        ensures
            final(self)@ == (StateV { current_libs: Seq::<Seq<char>>::empty(), ..old(self)@ }),
    {
        self.current_libs.clear();
        proof {
            assert(self.current_libs.deep_view() =~= Seq::<Seq<char>>::empty());
        }
    }

    /// Records one sibling package declared by the workspace manifest.
    pub fn add_workspace_lib(&mut self, lib: String)
        ensures
            final(self)@ == (StateV {
                workspace_libs: old(self)@.workspace_libs.push(lib@),
                ..old(self)@
            }),
    {
        self.workspace_libs.push(lib);
        proof {
            assert(self.workspace_libs.deep_view() =~= old(self).workspace_libs.deep_view().push(
                self.workspace_libs[self.workspace_libs.len() - 1]@,
            ));
        }
    }

    /// Normalizes the path of the file about to be visited down to its
    /// module name, striking the project path prefix `path` out first.
    pub fn update_current_file(&mut self, file: String, path: &str)
        ensures
            final(self)@ == (StateV {
                current_file: normalized_file(file@, path@),
                ..old(self)@
            }),
    {
        let f = remove_all(file.as_str(), path);
        let f = remove_all(f.as_str(), ".rs");
        let f = remove_all(f.as_str(), "/src/");
        let f = remove_all(f.as_str(), "/");
        let f = remove_all(f.as_str(), "mod");
        self.current_file = f;
    }
}

} // verus!
