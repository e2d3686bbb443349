//! The traversal: a depth-first walk of each function's syntax tree that
//! drives the graph engine in the exact order the attachment algorithm
//! depends on.  Each visiting method is specified against a ghost
//! counterpart that folds the engine's primitive operations over the tree,
//! so the graph a visit produces is pinned down completely.
use vstd::prelude::*;
use vstd::string::StringExecFns;
use crate::ast::{
    block_size, expr_size, exprs_size, item_size, items_size, lemma_exprs_size_take,
    lemma_items_size_take, lemma_stmts_size_take, lemma_trees_size_take, opt_box_expr_size,
    opt_expr_size, pat_name, stmt_size, stmts_size, tree_size, trees_size, Block, Expr, FnItem,
    Item, Stmt, UseTree,
};
use crate::graph::{
    add_edge_g, add_literal_g, add_local_g, add_node_g, clear_layer_g, find_node_at,
    first_layer_from, lemma_find_from_range, local_exists_g, GraphV,
};
use crate::node::{Node, NodeType, NodeV};
use crate::layer::Layer;
use crate::stack::{get_with_last_g, insert_g, path_sep, remove_layer_g, EntryV, StackV};
use crate::state::{State, StateV};
use crate::strutil::{contains_string, join_strings, join_with};
use crate::utils::get_local;

verus! {

/// The node a visit inserts before the engine assigns its id.
pub open spec fn fresh_node(key: Seq<char>, node_type: NodeType) -> NodeV {
    NodeV {
        id: 0,
        key,
        local: Seq::<char>::empty(),
        literal: None,
        doc: Seq::<Seq<char>>::empty(),
        node_type,
    }
}

/// Ghost counterpart of [`State::visit_expr`]: what one expression does to
/// the graph.
pub open spec fn visit_expr_g(g: GraphV, e: Expr) -> GraphV
    decreases expr_size(e), 3int,
{
    match e {
        Expr::Call { func, args } => visit_call_g(g, *func, args@),
        Expr::MethodCall { receiver, method, args } => visit_method_call_g(
            g,
            *receiver,
            method@,
            args@,
        ),
        Expr::MacroCall { segments } => {
            let g1 = add_node_g(g, fresh_node(join_with(segments.deep_view(), "::"@), NodeType::Macro));
            add_edge_g(g1, g.nodes.len() as i16)
        },
        Expr::Path { segments } => {
            let name = join_with(segments.deep_view(), "::"@);
            let kind = if local_exists_g(g.nodes, name) {
                NodeType::Local
            } else {
                NodeType::Call
            };
            let g1 = add_node_g(g, fresh_node(name, kind));
            add_edge_g(g1, g.nodes.len() as i16)
        },
        Expr::Lit { text } => add_literal_g(g, text@),
        Expr::Tuple { elems } => {
            let g1 = add_node_g(g, fresh_node("(,)"@, NodeType::Tuple));
            let g2 = add_edge_g(g1, g.nodes.len() as i16);
            let g3 = GraphV { layer_args: (g2.layer_args + 1) as i16, ..g2 };
            let g4 = visit_exprs_g(g3, elems@);
            GraphV { layer_args: (g4.layer_args - 1) as i16, ..g4 }
        },
        Expr::Paren { inner } => {
            let g1 = add_node_g(g, fresh_node("()"@, NodeType::Paren));
            let g2 = add_edge_g(g1, g.nodes.len() as i16);
            let g3 = GraphV { layer_args: (g2.layer_args + 1) as i16, ..g2 };
            let g4 = visit_expr_g(g3, *inner);
            GraphV { layer_args: (g4.layer_args - 1) as i16, ..g4 }
        },
        Expr::StructLit { segments, fields } => {
            let g1 = add_node_g(
                g,
                fresh_node(join_with(segments.deep_view(), Seq::<char>::empty()), NodeType::Struct),
            );
            visit_exprs_g(g1, fields@)
        },
        Expr::Match { scrutinee, arms } => visit_match_g(g, *scrutinee, arms@),
        Expr::If { cond, then_branch, else_branch } => visit_if_g(
            g,
            *cond,
            then_branch,
            else_branch,
        ),
        Expr::BlockExpr { block } => visit_block_g(g, block),
        Expr::Reference { inner } => visit_expr_g(g, *inner),
        Expr::Binary { left, right } => visit_expr_g(visit_expr_g(g, *left), *right),
        Expr::Return { inner } => match inner {
            Some(e2) => visit_expr_g(g, *e2),
            None => g,
        },
        Expr::Await { base } => visit_expr_g(g, *base),
        Expr::TryExpr { inner } => visit_expr_g(g, *inner),
        Expr::ForLoop { iter, body } => visit_block_g(visit_expr_g(g, *iter), body),
        Expr::While { cond, body } => visit_block_g(visit_expr_g(g, *cond), body),
        Expr::Loop { body } => visit_block_g(g, body),
        Expr::Unary { inner } => g,
        Expr::LetCond { init } => g,
        Expr::Other => g,
    }
}

/// Ghost counterpart of [`State::visit_expr_call`]: the callee first, then
/// the arguments one argument depth deeper.  The call itself adds no node;
/// its callee's path reference does.
pub open spec fn visit_call_g(g: GraphV, func: Expr, args: Seq<Expr>) -> GraphV
    decreases expr_size(func) + exprs_size(args) + 1, 2int,
{
    let g1 = visit_expr_g(g, func);
    let g2 = GraphV { layer_args: (g1.layer_args + 1) as i16, ..g1 };
    let g3 = visit_exprs_g(g2, args);
    GraphV { layer_args: (g3.layer_args - 1) as i16, ..g3 }
}

/// Ghost counterpart of [`State::visit_expr_method_call`]: the receiver
/// first, then the method node wired to its resolved receiver, then the
/// arguments one argument depth deeper.
pub open spec fn visit_method_call_g(
    g: GraphV,
    receiver: Expr,
    method: Seq<char>,
    args: Seq<Expr>,
) -> GraphV
    decreases expr_size(receiver) + exprs_size(args) + 1, 2int,
{
    let g1 = visit_expr_g(g, receiver);
    let g2 = add_node_g(g1, fresh_node(method, NodeType::Method));
    let g3 = add_edge_g(g2, g1.nodes.len() as i16);
    let g4 = GraphV { layer_args: (g3.layer_args + 1) as i16, ..g3 };
    let g5 = visit_exprs_g(g4, args);
    GraphV { layer_args: (g5.layer_args - 1) as i16, ..g5 }
}

/// Ghost counterpart of [`State::visit_expr_match`]: a call, method call,
/// await or block scrutinee is walked; any other scrutinee is not; then
/// every arm body in order.
pub open spec fn visit_match_g(g: GraphV, scrutinee: Expr, arms: Seq<Expr>) -> GraphV
    decreases expr_size(scrutinee) + exprs_size(arms) + 1, 2int,
{
    let g1 = match scrutinee {
        Expr::Call { func, args } => visit_call_g(g, *func, args@),
        Expr::MethodCall { receiver, method, args } => visit_method_call_g(
            g,
            *receiver,
            method@,
            args@,
        ),
        Expr::Await { base } => visit_expr_g(g, *base),
        Expr::BlockExpr { block } => visit_block_g(g, block),
        _ => g,
    };
    visit_exprs_g(g1, arms)
}

/// Ghost counterpart of [`State::visit_expr_if`]: the condition, then the
/// operand under a unary or let condition, then the else expression, then
/// the then-block.
pub open spec fn visit_if_g(
    g: GraphV,
    cond: Expr,
    then_branch: Block,
    else_branch: Option<Box<Expr>>,
) -> GraphV
    decreases expr_size(cond) + block_size(then_branch) + opt_box_expr_size(else_branch) + 1, 2int,
{
    let g1 = visit_expr_g(g, cond);
    let g2 = match cond {
        Expr::Unary { inner } => visit_expr_g(g1, *inner),
        Expr::LetCond { init } => visit_expr_g(g1, *init),
        _ => g1,
    };
    let g3 = match else_branch {
        Some(e2) => visit_expr_g(g2, *e2),
        None => g2,
    };
    visit_block_g(g3, then_branch)
}

/// Left fold of [`visit_expr_g`] over an argument, element, field or arm
/// list.
pub open spec fn visit_exprs_g(g: GraphV, es: Seq<Expr>) -> GraphV
    decreases exprs_size(es), 4int,
    via visit_exprs_g_dec
{
    if es.len() == 0 {
        g
    } else {
        visit_exprs_g(visit_expr_g(g, es[0]), es.drop_first())
    }
}

#[via_fn]
proof fn visit_exprs_g_dec(g: GraphV, es: Seq<Expr>) {
    if es.len() != 0 {
        crate::ast::lemma_expr_size_pos(es[0]);
    }
}

/// Ghost counterpart of [`State::visit_block`]: one depth down, each
/// statement followed by the per-statement stack cleanup, one depth up.
pub open spec fn visit_block_g(g: GraphV, b: Block) -> GraphV
    decreases block_size(b), 3int,
{
    let g1 = GraphV { layer: (g.layer + 1) as i16, ..g };
    let g2 = visit_stmts_g(g1, b.stmts@);
    GraphV { layer: (g2.layer - 1) as i16, ..g2 }
}

/// Fold over a block's statements: each statement's visit, then the
/// cleanup of the current depth's stack entries.
pub open spec fn visit_stmts_g(g: GraphV, ss: Seq<Stmt>) -> GraphV
    decreases stmts_size(ss), 4int,
    via visit_stmts_g_dec
{
    if ss.len() == 0 {
        g
    } else {
        visit_stmts_g(clear_layer_g(visit_stmt_g(g, ss[0])), ss.drop_first())
    }
}

#[via_fn]
proof fn visit_stmts_g_dec(g: GraphV, ss: Seq<Stmt>) {
    if ss.len() != 0 {
        crate::ast::lemma_stmt_size_pos(ss[0]);
    }
}

/// One statement: a local binding visits its initializer and registers its
/// name; an expression statement visits its expression.
pub open spec fn visit_stmt_g(g: GraphV, s: Stmt) -> GraphV
    decreases stmt_size(s), 3int,
{
    match s {
        Stmt::Local { pat, init } => visit_local_g(g, pat, init),
        Stmt::ExprStmt { expr } => visit_expr_g(g, expr),
        Stmt::Other => g,
    }
}

/// Ghost counterpart of [`State::visit_local`]: the initializer, then the
/// binding name registered on the first node of the current depth.
pub open spec fn visit_local_g(g: GraphV, pat: crate::ast::Pat, init: Option<Expr>) -> GraphV
    decreases opt_expr_size(init) + 1, 2int,
{
    let g1 = match init {
        Some(e) => visit_expr_g(g, e),
        None => g,
    };
    match pat_name(pat) {
        Some(n) => add_local_g(g1, n),
        None => g1,
    }
}

/// The fold over one more expression is the fold so far followed by that
/// expression's visit.
proof fn lemma_visit_exprs_take(g: GraphV, es: Seq<Expr>, i: int)
    requires
        0 <= i < es.len(),
    ensures
        visit_exprs_g(g, es.take(i + 1)) == visit_expr_g(visit_exprs_g(g, es.take(i)), es[i]),
    decreases i,
{
    if i == 0 {
        assert(es.take(0) =~= Seq::<Expr>::empty());
        assert(es.take(1).drop_first() =~= Seq::<Expr>::empty());
        assert(es.take(1)[0] == es[0]);
        assert(visit_exprs_g(g, es.take(1)) == visit_exprs_g(
            visit_expr_g(g, es[0]),
            Seq::<Expr>::empty(),
        ));
    } else {
        let g1 = visit_expr_g(g, es[0]);
        lemma_visit_exprs_take(g1, es.drop_first(), i - 1);
        assert(es.take(i + 1).drop_first() =~= es.drop_first().take(i));
        assert(es.take(i).drop_first() =~= es.drop_first().take(i - 1));
        assert(es.take(i + 1)[0] == es[0]);
        assert(es.take(i)[0] == es[0]);
        assert(es.drop_first()[i - 1] == es[i]);
        assert(visit_exprs_g(g, es.take(i + 1)) == visit_exprs_g(g1, es.drop_first().take(i)));
        assert(visit_exprs_g(g, es.take(i)) == visit_exprs_g(g1, es.drop_first().take(i - 1)));
    }
}

/// The fold over one more statement is the fold so far followed by that
/// statement's visit and cleanup.
proof fn lemma_visit_stmts_take(g: GraphV, ss: Seq<Stmt>, i: int)
    requires
        0 <= i < ss.len(),
    ensures
        visit_stmts_g(g, ss.take(i + 1)) == clear_layer_g(
            visit_stmt_g(visit_stmts_g(g, ss.take(i)), ss[i]),
        ),
    decreases i,
{
    if i == 0 {
        assert(ss.take(0) =~= Seq::<Stmt>::empty());
        assert(ss.take(1).drop_first() =~= Seq::<Stmt>::empty());
        assert(ss.take(1)[0] == ss[0]);
        assert(visit_stmts_g(g, ss.take(1)) == visit_stmts_g(
            clear_layer_g(visit_stmt_g(g, ss[0])),
            Seq::<Stmt>::empty(),
        ));
    } else {
        let g1 = clear_layer_g(visit_stmt_g(g, ss[0]));
        lemma_visit_stmts_take(g1, ss.drop_first(), i - 1);
        assert(ss.take(i + 1).drop_first() =~= ss.drop_first().take(i));
        assert(ss.take(i).drop_first() =~= ss.drop_first().take(i - 1));
        assert(ss.take(i + 1)[0] == ss[0]);
        assert(ss.take(i)[0] == ss[0]);
        assert(ss.drop_first()[i - 1] == ss[i]);
        assert(visit_stmts_g(g, ss.take(i + 1)) == visit_stmts_g(g1, ss.drop_first().take(i)));
        assert(visit_stmts_g(g, ss.take(i)) == visit_stmts_g(g1, ss.drop_first().take(i - 1)));
    }
}

impl State {
    /// Walks one expression, inserting and wiring the nodes it owes the
    /// graph.  The size bounds keep ids and depths within the id type.
    pub fn visit_expr(&mut self, e: &Expr)
        requires
            old(self)@.graph.nodes.len() + expr_size(*e) <= 32767,
            old(self)@.graph.layer + expr_size(*e) <= 32767,
            old(self)@.graph.layer_args + expr_size(*e) <= 32767,
        ensures
            final(self)@ == (StateV { graph: visit_expr_g(old(self)@.graph, *e), ..old(self)@ }),
            final(self)@.graph.layer == old(self)@.graph.layer,
            final(self)@.graph.layer_args == old(self)@.graph.layer_args,
            final(self)@.graph.nodes.len() <= old(self)@.graph.nodes.len() + expr_size(*e),
        decreases expr_size(*e), 3int,
    {
        match e {
            Expr::Call { func, args } => {
                proof {
                    assert(expr_size(*e) == 1 + expr_size(**func) + exprs_size(args@));
                }
                self.visit_expr_call(func, args);
            
                proof {
                    assert(self@.graph.nodes.len() <= old(self)@.graph.nodes.len() + expr_size(*e));
                }
            },
            Expr::MethodCall { receiver, method, args } => {
                proof {
                    assert(expr_size(*e) == 1 + expr_size(**receiver) + exprs_size(args@));
                }
                self.visit_expr_method_call(receiver, method.as_str(), args);
            
                proof {
                    assert(self@.graph.nodes.len() <= old(self)@.graph.nodes.len() + expr_size(*e));
                }
            },
            Expr::MacroCall { segments } => {
                let name = join_strings(segments, "::");
                let node = Node::new(name.as_str(), NodeType::Macro);
                let id = self.graph.add_node(node);
                self.graph.add_edge(id);
            
                proof {
                    assert(self@.graph.nodes.len() <= old(self)@.graph.nodes.len() + expr_size(*e));
                }
            },
            Expr::Path { segments } => {
                let name = join_strings(segments, "::");
                let kind = if self.graph.local_exists(name.as_str()) {
                    NodeType::Local
                } else {
                    NodeType::Call
                };
                let node = Node::new(name.as_str(), kind);
                let id = self.graph.add_node(node);
                self.graph.add_edge(id);
            
                proof {
                    assert(self@.graph.nodes.len() <= old(self)@.graph.nodes.len() + expr_size(*e));
                }
            },
            Expr::Lit { text } => {
                let ghost g0 = self@.graph;
                self.graph.add_literal(text.as_str());
                proof {
                    if g0.calls.len() > 0 {
                        match find_node_at(g0.nodes, g0.calls.last().id) {
                            Some(i) => {
                                lemma_find_from_range(g0.nodes, g0.calls.last().id, 0, i);
                            },
                            None => {},
                        }
                    }
                    assert(self@.graph.nodes.len() <= old(self)@.graph.nodes.len() + expr_size(*e));
                }
            },
            Expr::Tuple { elems } => {
                let node = Node::new("(,)", NodeType::Tuple);
                let id = self.graph.add_node(node);
                self.graph.add_edge(id);
                self.graph.increase_layer_args();
                self.visit_exprs(elems);
                self.graph.decrease_layer_args();
            
                proof {
                    assert(self@.graph.nodes.len() <= old(self)@.graph.nodes.len() + expr_size(*e));
                }
            },
            Expr::Paren { inner } => {
                let node = Node::new("()", NodeType::Paren);
                let id = self.graph.add_node(node);
                self.graph.add_edge(id);
                self.graph.increase_layer_args();
                self.visit_expr(inner);
                self.graph.decrease_layer_args();
            
                proof {
                    assert(self@.graph.nodes.len() <= old(self)@.graph.nodes.len() + expr_size(*e));
                }
            },
            Expr::StructLit { segments, fields } => {
                let name = join_strings(segments, "");
                proof {
                    reveal_strlit("");
                    assert(""@ =~= Seq::<char>::empty());
                }
                let node = Node::new(name.as_str(), NodeType::Struct);
                let _id = self.graph.add_node(node);
                self.visit_exprs(fields);
            
                proof {
                    assert(self@.graph.nodes.len() <= old(self)@.graph.nodes.len() + expr_size(*e));
                }
            },
            Expr::Match { scrutinee, arms } => {
                self.visit_expr_match(scrutinee, arms);
            
                proof {
                    assert(self@.graph.nodes.len() <= old(self)@.graph.nodes.len() + expr_size(*e));
                }
            },
            Expr::If { cond, then_branch, else_branch } => {
                self.visit_expr_if(cond, then_branch, else_branch);
            
                proof {
                    assert(self@.graph.nodes.len() <= old(self)@.graph.nodes.len() + expr_size(*e));
                }
            },
            Expr::BlockExpr { block } => {
                self.visit_block(block);
            
                proof {
                    assert(self@.graph.nodes.len() <= old(self)@.graph.nodes.len() + expr_size(*e));
                }
            },
            Expr::Reference { inner } => {
                self.visit_expr(inner);
            
                proof {
                    assert(self@.graph.nodes.len() <= old(self)@.graph.nodes.len() + expr_size(*e));
                }
            },
            Expr::Binary { left, right } => {
                self.visit_expr(left);
                self.visit_expr(right);
            
                proof {
                    assert(self@.graph.nodes.len() <= old(self)@.graph.nodes.len() + expr_size(*e));
                }
            },
            Expr::Return { inner } => {
                if let Some(e2) = inner {
                    self.visit_expr(e2);
                }
            
                proof {
                    assert(self@.graph.nodes.len() <= old(self)@.graph.nodes.len() + expr_size(*e));
                }
            },
            Expr::Await { base } => {
                self.visit_expr(base);
            
                proof {
                    assert(self@.graph.nodes.len() <= old(self)@.graph.nodes.len() + expr_size(*e));
                }
            },
            Expr::TryExpr { inner } => {
                self.visit_expr(inner);
            
                proof {
                    assert(self@.graph.nodes.len() <= old(self)@.graph.nodes.len() + expr_size(*e));
                }
            },
            Expr::ForLoop { iter, body } => {
                self.visit_expr(iter);
                self.visit_block(body);
                proof {
                    assert(self@.graph.nodes.len() <= old(self)@.graph.nodes.len() + expr_size(*e));
                }
            },
            Expr::While { cond, body } => {
                self.visit_expr(cond);
                self.visit_block(body);
                proof {
                    assert(self@.graph.nodes.len() <= old(self)@.graph.nodes.len() + expr_size(*e));
                }
            },
            Expr::Loop { body } => {
                self.visit_block(body);
                proof {
                    assert(self@.graph.nodes.len() <= old(self)@.graph.nodes.len() + expr_size(*e));
                }
            },
            Expr::Unary { .. } => {},
            Expr::LetCond { .. } => {},
            Expr::Other => {},
        }
    }

    /// Walks a function-style call: the callee first, so its node stands
    /// on the stack before the arguments open a deeper argument list.
    pub fn visit_expr_call(&mut self, func: &Expr, args: &Vec<Expr>)
        requires
            old(self)@.graph.nodes.len() + expr_size(*func) + exprs_size(args@) + 1 <= 32767,
            old(self)@.graph.layer + expr_size(*func) + exprs_size(args@) + 1 <= 32767,
            old(self)@.graph.layer_args + expr_size(*func) + exprs_size(args@) + 1 <= 32767,
        ensures
            final(self)@ == (StateV {
                graph: visit_call_g(old(self)@.graph, *func, args@),
                ..old(self)@
            }),
            final(self)@.graph.layer == old(self)@.graph.layer,
            final(self)@.graph.layer_args == old(self)@.graph.layer_args,
            final(self)@.graph.nodes.len() <= old(self)@.graph.nodes.len() + expr_size(*func)
                + exprs_size(args@),
        decreases expr_size(*func) + exprs_size(args@) + 1, 2int,
    {
        self.visit_expr(func);
        self.graph.increase_layer_args();
        self.visit_exprs(args);
        self.graph.decrease_layer_args();
    }

    /// Walks a method call: the receiver first, then the method node wired
    /// to its resolved receiver, then the arguments one depth deeper.
    pub fn visit_expr_method_call(&mut self, receiver: &Expr, method: &str, args: &Vec<Expr>)
        requires
            old(self)@.graph.nodes.len() + expr_size(*receiver) + exprs_size(args@) + 1 <= 32767,
            old(self)@.graph.layer + expr_size(*receiver) + exprs_size(args@) + 1 <= 32767,
            old(self)@.graph.layer_args + expr_size(*receiver) + exprs_size(args@) + 1 <= 32767,
        ensures
            final(self)@ == (StateV {
                graph: visit_method_call_g(old(self)@.graph, *receiver, method@, args@),
                ..old(self)@
            }),
            final(self)@.graph.layer == old(self)@.graph.layer,
            final(self)@.graph.layer_args == old(self)@.graph.layer_args,
            final(self)@.graph.nodes.len() <= old(self)@.graph.nodes.len() + expr_size(*receiver)
                + exprs_size(args@) + 1,
        decreases expr_size(*receiver) + exprs_size(args@) + 1, 2int,
    {
        self.visit_expr(receiver);
        let node = Node::new(method, NodeType::Method);
        let id = self.graph.add_node(node);
        self.graph.add_edge(id);
        self.graph.increase_layer_args();
        self.visit_exprs(args);
        self.graph.decrease_layer_args();
    }

    /// Walks a match: a call, method call, await or block scrutinee is
    /// walked, any other scrutinee is not; then every arm body in order.
    pub fn visit_expr_match(&mut self, scrutinee: &Expr, arms: &Vec<Expr>)
        requires
            old(self)@.graph.nodes.len() + expr_size(*scrutinee) + exprs_size(arms@) + 1 <= 32767,
            old(self)@.graph.layer + expr_size(*scrutinee) + exprs_size(arms@) + 1 <= 32767,
            old(self)@.graph.layer_args + expr_size(*scrutinee) + exprs_size(arms@) + 1 <= 32767,
        ensures
            final(self)@ == (StateV {
                graph: visit_match_g(old(self)@.graph, *scrutinee, arms@),
                ..old(self)@
            }),
            final(self)@.graph.layer == old(self)@.graph.layer,
            final(self)@.graph.layer_args == old(self)@.graph.layer_args,
            final(self)@.graph.nodes.len() <= old(self)@.graph.nodes.len() + expr_size(*scrutinee)
                + exprs_size(arms@),
        decreases expr_size(*scrutinee) + exprs_size(arms@) + 1, 2int,
    {
        match scrutinee {
            Expr::Call { func, args } => {
                self.visit_expr_call(func, args);
            },
            Expr::MethodCall { receiver, method, args } => {
                self.visit_expr_method_call(receiver, method.as_str(), args);
            },
            Expr::Await { base } => {
                self.visit_expr(base);
            },
            Expr::BlockExpr { block } => {
                self.visit_block(block);
            },
            _ => {},
        }
        self.visit_exprs(arms);
    }

    /// Walks a conditional: the condition, the operand under a unary or
    /// let condition, the else expression, then the then-block.
    pub fn visit_expr_if(&mut self, cond: &Expr, then_branch: &Block, else_branch: &Option<
        Box<Expr>,
    >)
        requires
            old(self)@.graph.nodes.len() + expr_size(*cond) + block_size(*then_branch)
                + opt_box_expr_size(*else_branch) + 1 <= 32767,
            old(self)@.graph.layer + expr_size(*cond) + block_size(*then_branch)
                + opt_box_expr_size(*else_branch) + 1 <= 32767,
            old(self)@.graph.layer_args + expr_size(*cond) + block_size(*then_branch)
                + opt_box_expr_size(*else_branch) + 1 <= 32767,
        ensures
            final(self)@ == (StateV {
                graph: visit_if_g(old(self)@.graph, *cond, *then_branch, *else_branch),
                ..old(self)@
            }),
            final(self)@.graph.layer == old(self)@.graph.layer,
            final(self)@.graph.layer_args == old(self)@.graph.layer_args,
            final(self)@.graph.nodes.len() <= old(self)@.graph.nodes.len() + expr_size(*cond)
                + block_size(*then_branch) + opt_box_expr_size(*else_branch),
        decreases expr_size(*cond) + block_size(*then_branch) + opt_box_expr_size(*else_branch)
            + 1, 2int,
    {
        self.visit_expr(cond);
        match cond {
            Expr::Unary { inner } => {
                self.visit_expr(inner);
            },
            Expr::LetCond { init } => {
                self.visit_expr(init);
            },
            _ => {},
        }
        if let Some(e2) = else_branch {
            self.visit_expr(e2);
        }
        self.visit_block(then_branch);
    }

    /// Walks each expression of a list in order.
    fn visit_exprs(&mut self, es: &Vec<Expr>)
        requires
            old(self)@.graph.nodes.len() + exprs_size(es@) <= 32767,
            old(self)@.graph.layer + exprs_size(es@) <= 32767,
            old(self)@.graph.layer_args + exprs_size(es@) <= 32767,
        ensures
            final(self)@ == (StateV { graph: visit_exprs_g(old(self)@.graph, es@), ..old(self)@ }),
            final(self)@.graph.layer == old(self)@.graph.layer,
            final(self)@.graph.layer_args == old(self)@.graph.layer_args,
            final(self)@.graph.nodes.len() <= old(self)@.graph.nodes.len() + exprs_size(es@),
        decreases exprs_size(es@), 4int,
    {
        proof {
            assert(es@.take(0) =~= Seq::<Expr>::empty());
        }
        let mut j: usize = 0;
        while j < es.len()
            invariant
                j <= es@.len(),
                old(self)@.graph.nodes.len() + exprs_size(es@) <= 32767,
                old(self)@.graph.layer + exprs_size(es@) <= 32767,
                old(self)@.graph.layer_args + exprs_size(es@) <= 32767,
                self@ == (StateV {
                    graph: visit_exprs_g(old(self)@.graph, es@.take(j as int)),
                    ..old(self)@
                }),
                self@.graph.layer == old(self)@.graph.layer,
                self@.graph.layer_args == old(self)@.graph.layer_args,
                self@.graph.nodes.len() <= old(self)@.graph.nodes.len() + exprs_size(
                    es@.take(j as int),
                ),
                exprs_size(es@.take(j as int)) <= exprs_size(es@),
            decreases es@.len() - j,
        {
            proof {
                lemma_exprs_size_take(es@, j as int);
            }
            self.visit_expr(&es[j]);
            proof {
                lemma_visit_exprs_take(old(self)@.graph, es@, j as int);
            }
            j = j + 1;
        }
        proof {
            assert(es@.take(es@.len() as int) =~= es@);
        }
    }

    /// Walks a block: one depth down, each statement followed by the
    /// per-statement cleanup of the attachment stack, one depth up.
    pub fn visit_block(&mut self, block: &Block)
        requires
            old(self)@.graph.nodes.len() + block_size(*block) <= 32767,
            old(self)@.graph.layer + block_size(*block) <= 32767,
            old(self)@.graph.layer_args + block_size(*block) <= 32767,
        ensures
            final(self)@ == (StateV {
                graph: visit_block_g(old(self)@.graph, *block),
                ..old(self)@
            }),
            final(self)@.graph.layer == old(self)@.graph.layer,
            final(self)@.graph.layer_args == old(self)@.graph.layer_args,
            final(self)@.graph.nodes.len() <= old(self)@.graph.nodes.len() + block_size(*block),
        decreases block_size(*block), 3int,
    {
        self.graph.increase_layer();
        self.visit_stmts(&block.stmts);
        self.graph.decrease_layer();
    }

    /// Walks the statements of a block in order, pruning the current
    /// depth's stack entries after each one so siblings never cross-wire.
    fn visit_stmts(&mut self, ss: &Vec<Stmt>)
        requires
            old(self)@.graph.nodes.len() + stmts_size(ss@) <= 32767,
            old(self)@.graph.layer + stmts_size(ss@) <= 32767,
            old(self)@.graph.layer_args + stmts_size(ss@) <= 32767,
        ensures
            final(self)@ == (StateV { graph: visit_stmts_g(old(self)@.graph, ss@), ..old(self)@ }),
            final(self)@.graph.layer == old(self)@.graph.layer,
            final(self)@.graph.layer_args == old(self)@.graph.layer_args,
            final(self)@.graph.nodes.len() <= old(self)@.graph.nodes.len() + stmts_size(ss@),
        decreases stmts_size(ss@), 4int,
    {
        proof {
            assert(ss@.take(0) =~= Seq::<Stmt>::empty());
        }
        let mut j: usize = 0;
        while j < ss.len()
            invariant
                j <= ss@.len(),
                old(self)@.graph.nodes.len() + stmts_size(ss@) <= 32767,
                old(self)@.graph.layer + stmts_size(ss@) <= 32767,
                old(self)@.graph.layer_args + stmts_size(ss@) <= 32767,
                self@ == (StateV {
                    graph: visit_stmts_g(old(self)@.graph, ss@.take(j as int)),
                    ..old(self)@
                }),
                self@.graph.layer == old(self)@.graph.layer,
                self@.graph.layer_args == old(self)@.graph.layer_args,
                self@.graph.nodes.len() <= old(self)@.graph.nodes.len() + stmts_size(
                    ss@.take(j as int),
                ),
                stmts_size(ss@.take(j as int)) <= stmts_size(ss@),
            decreases ss@.len() - j,
        {
            proof {
                lemma_stmts_size_take(ss@, j as int);
            }
            self.visit_stmt(&ss[j]);
            self.graph.clear_calls_layer();
            proof {
                lemma_visit_stmts_take(old(self)@.graph, ss@, j as int);
            }
            j = j + 1;
        }
        proof {
            assert(ss@.take(ss@.len() as int) =~= ss@);
        }
    }

    /// Dispatches one statement of a block.
    fn visit_stmt(&mut self, s: &Stmt)
        requires
            old(self)@.graph.nodes.len() + stmt_size(*s) <= 32767,
            old(self)@.graph.layer + stmt_size(*s) <= 32767,
            old(self)@.graph.layer_args + stmt_size(*s) <= 32767,
        ensures
            final(self)@ == (StateV { graph: visit_stmt_g(old(self)@.graph, *s), ..old(self)@ }),
            final(self)@.graph.layer == old(self)@.graph.layer,
            final(self)@.graph.layer_args == old(self)@.graph.layer_args,
            final(self)@.graph.nodes.len() <= old(self)@.graph.nodes.len() + stmt_size(*s),
        decreases stmt_size(*s), 3int,
    {
        match s {
            Stmt::Local { pat, init } => {
                self.visit_local(pat, init);
            },
            Stmt::ExprStmt { expr } => {
                self.visit_expr(expr);
            },
            Stmt::Other => {},
        }
    }

    /// Walks a local binding: its initializer first, then the binding name
    /// registered on the first node created at the current depth.
    pub fn visit_local(&mut self, pat: &crate::ast::Pat, init: &Option<Expr>)
        requires
            old(self)@.graph.nodes.len() + opt_expr_size(*init) + 1 <= 32767,
            old(self)@.graph.layer + opt_expr_size(*init) + 1 <= 32767,
            old(self)@.graph.layer_args + opt_expr_size(*init) + 1 <= 32767,
        ensures
            final(self)@ == (StateV {
                graph: visit_local_g(old(self)@.graph, *pat, *init),
                ..old(self)@
            }),
            final(self)@.graph.layer == old(self)@.graph.layer,
            final(self)@.graph.layer_args == old(self)@.graph.layer_args,
            final(self)@.graph.nodes.len() <= old(self)@.graph.nodes.len() + opt_expr_size(*init),
        decreases opt_expr_size(*init) + 1, 2int,
    {
        if let Some(e) = init {
            proof {
                assert(opt_expr_size(*init) == expr_size(*e));
            }
            self.visit_expr(e);
            proof {
                assert(self@.graph.nodes.len() <= old(self)@.graph.nodes.len() + opt_expr_size(
                    *init,
                ));
            }
        }
        if let Some(local) = get_local(pat) {
            let ghost gmid = self@.graph;
            self.graph.add_local(local.as_str());
            proof {
                match first_layer_from(gmid.calls, gmid.layer, 0) {
                    Some(id) => {
                        match find_node_at(gmid.nodes, id) {
                            Some(i) => {
                                lemma_find_from_range(gmid.nodes, id, 0, i);
                            },
                            None => {},
                        }
                    },
                    None => {},
                }
                assert(self@.graph.nodes.len() == gmid.nodes.len());
            }
        }
    }
}

/// Ghost counterpart of [`State::visit_use_tree`]: a path segment is
/// inserted, its subtree walked, and its partial path discarded; a group
/// opens one depth, walks its subtrees and closes the depth; a final name
/// records the fully qualified import.
pub open spec fn visit_use_tree_g(s: StateV, t: UseTree) -> StateV
    decreases tree_size(t), 3int,
{
    match t {
        UseTree::Path { ident, tree } => {
            let s1 = StateV { use_stack: insert_g(s.use_stack, ident@), ..s };
            let s2 = visit_use_tree_g(s1, *tree);
            StateV {
                use_stack: StackV {
                    stack: remove_layer_g(s2.use_stack.stack, s2.use_stack.group_layer),
                    ..s2.use_stack
                },
                ..s2
            }
        },
        UseTree::Group { items } => {
            let s1 = StateV {
                use_stack: StackV {
                    group_layer: (s.use_stack.group_layer + 1) as i16,
                    ..s.use_stack
                },
                ..s
            };
            let s2 = visit_trees_g(s1, items@);
            StateV {
                use_stack: StackV {
                    stack: remove_layer_g(s2.use_stack.stack, s2.use_stack.group_layer),
                    group_layer: (s2.use_stack.group_layer - 1) as i16,
                    ..s2.use_stack
                },
                ..s2
            }
        },
        UseTree::Name { name } => StateV {
            current_libs: s.current_libs.push(get_with_last_g(s.use_stack, name@)),
            ..s
        },
        UseTree::Other => s,
    }
}

/// Left fold of [`visit_use_tree_g`] over a group's subtrees.
pub open spec fn visit_trees_g(s: StateV, ts: Seq<UseTree>) -> StateV
    decreases trees_size(ts), 4int,
    via visit_trees_g_dec
{
    if ts.len() == 0 {
        s
    } else {
        visit_trees_g(visit_use_tree_g(s, ts[0]), ts.drop_first())
    }
}

#[via_fn]
proof fn visit_trees_g_dec(s: StateV, ts: Seq<UseTree>) {
    if ts.len() != 0 {
        crate::ast::lemma_tree_size_pos(ts[0]);
    }
}

/// Ghost counterpart of [`State::visit_item_use`]: the whole import tree,
/// then the use-path stack restored to its fresh state.
pub open spec fn visit_item_use_g(s: StateV, t: UseTree) -> StateV {
    let s1 = visit_use_tree_g(s, t);
    StateV {
        use_stack: StackV {
            root: Seq::<char>::empty(),
            stack: Seq::<EntryV>::empty(),
            group_layer: 1,
        },
        ..s1
    }
}

/// Ghost counterpart of [`State::visit_item_fn`]: unless the allow-list is
/// non-empty and misses the function's name, a Function node keyed by file
/// and name and carrying the doc comments is inserted, the body walked,
/// and the attachment stack emptied for the next function.
pub open spec fn visit_item_fn_g(s: StateV, f: FnItem, allow: Seq<Seq<char>>) -> StateV {
    if !allow.contains(f.name@) && allow.len() != 0 {
        s
    } else {
        let g1 = add_node_g(
            s.graph,
            NodeV {
                id: 0,
                key: s.current_file + path_sep() + f.name@,
                local: Seq::<char>::empty(),
                literal: None,
                doc: f.doc.deep_view(),
                node_type: NodeType::Function,
            },
        );
        let g2 = visit_block_g(g1, f.body);
        StateV { graph: GraphV { calls: Seq::<Layer>::empty(), ..g2 }, ..s }
    }
}

/// One top-level item: a function is graphed, a module declaration and an
/// import record names, everything else is ignored.
pub open spec fn visit_item_g(s: StateV, it: Item, allow: Seq<Seq<char>>) -> StateV {
    match it {
        Item::Fn { item } => visit_item_fn_g(s, item, allow),
        Item::Mod { name } => StateV {
            current_libs: s.current_libs.push(get_with_last_g(s.use_stack, name@)),
            ..s
        },
        Item::Use { tree } => visit_item_use_g(s, tree),
        Item::Other => s,
    }
}

/// Left fold of [`visit_item_g`] over a file's items.
pub open spec fn visit_items_g(s: StateV, its: Seq<Item>, allow: Seq<Seq<char>>) -> StateV
    decreases its.len(),
{
    if its.len() == 0 {
        s
    } else {
        visit_items_g(visit_item_g(s, its[0], allow), its.drop_first(), allow)
    }
}

/// The fold over one more subtree is the fold so far followed by that
/// subtree's visit.
proof fn lemma_visit_trees_take(s: StateV, ts: Seq<UseTree>, i: int)
    requires
        0 <= i < ts.len(),
    ensures
        visit_trees_g(s, ts.take(i + 1)) == visit_use_tree_g(visit_trees_g(s, ts.take(i)), ts[i]),
    decreases i,
{
    if i == 0 {
        assert(ts.take(0) =~= Seq::<UseTree>::empty());
        assert(ts.take(1).drop_first() =~= Seq::<UseTree>::empty());
        assert(ts.take(1)[0] == ts[0]);
        assert(visit_trees_g(s, ts.take(1)) == visit_trees_g(
            visit_use_tree_g(s, ts[0]),
            Seq::<UseTree>::empty(),
        ));
    } else {
        let s1 = visit_use_tree_g(s, ts[0]);
        lemma_visit_trees_take(s1, ts.drop_first(), i - 1);
        assert(ts.take(i + 1).drop_first() =~= ts.drop_first().take(i));
        assert(ts.take(i).drop_first() =~= ts.drop_first().take(i - 1));
        assert(ts.take(i + 1)[0] == ts[0]);
        assert(ts.take(i)[0] == ts[0]);
        assert(ts.drop_first()[i - 1] == ts[i]);
        assert(visit_trees_g(s, ts.take(i + 1)) == visit_trees_g(s1, ts.drop_first().take(i)));
        assert(visit_trees_g(s, ts.take(i)) == visit_trees_g(s1, ts.drop_first().take(i - 1)));
    }
}

/// The fold over one more item is the fold so far followed by that item's
/// visit.
proof fn lemma_visit_items_take(s: StateV, its: Seq<Item>, allow: Seq<Seq<char>>, i: int)
    requires
        0 <= i < its.len(),
    ensures
        visit_items_g(s, its.take(i + 1), allow) == visit_item_g(
            visit_items_g(s, its.take(i), allow),
            its[i],
            allow,
        ),
    decreases i,
{
    if i == 0 {
        assert(its.take(0) =~= Seq::<Item>::empty());
        assert(its.take(1).drop_first() =~= Seq::<Item>::empty());
        assert(its.take(1)[0] == its[0]);
        assert(visit_items_g(s, its.take(1), allow) == visit_items_g(
            visit_item_g(s, its[0], allow),
            Seq::<Item>::empty(),
            allow,
        ));
    } else {
        let s1 = visit_item_g(s, its[0], allow);
        lemma_visit_items_take(s1, its.drop_first(), allow, i - 1);
        assert(its.take(i + 1).drop_first() =~= its.drop_first().take(i));
        assert(its.take(i).drop_first() =~= its.drop_first().take(i - 1));
        assert(its.take(i + 1)[0] == its[0]);
        assert(its.take(i)[0] == its[0]);
        assert(its.drop_first()[i - 1] == its[i]);
        assert(visit_items_g(s, its.take(i + 1), allow) == visit_items_g(
            s1,
            its.drop_first().take(i),
            allow,
        ));
        assert(visit_items_g(s, its.take(i), allow) == visit_items_g(
            s1,
            its.drop_first().take(i - 1),
            allow,
        ));
    }
}

impl State {
    /// Walks one arm of an import declaration through the use-path stack.
    pub fn visit_use_tree(&mut self, t: &UseTree)
        requires
            old(self)@.use_stack.group_layer + tree_size(*t) <= 32767,
        ensures
            final(self)@ == visit_use_tree_g(old(self)@, *t),
            final(self)@.use_stack.group_layer == old(self)@.use_stack.group_layer,
            final(self)@.graph == old(self)@.graph,
            final(self)@.current_file == old(self)@.current_file,
            final(self)@.workspace_libs == old(self)@.workspace_libs,
        decreases tree_size(*t), 3int,
    {
        match t {
            UseTree::Path { ident, tree } => {
                self.use_stack.insert(ident.clone());
                self.visit_use_tree(tree);
                self.use_stack.pop_stack();
            },
            UseTree::Group { items } => {
                self.use_stack.add_layer();
                self.visit_use_trees(items);
                self.use_stack.clear_layer();
            },
            UseTree::Name { name } => {
                self.add_new_lib(name.as_str());
            },
            UseTree::Other => {},
        }
    }

    /// Walks each subtree of a grouped import list in order.
    fn visit_use_trees(&mut self, ts: &Vec<UseTree>)
        requires
            old(self)@.use_stack.group_layer + trees_size(ts@) <= 32767,
        ensures
            final(self)@ == visit_trees_g(old(self)@, ts@),
            final(self)@.use_stack.group_layer == old(self)@.use_stack.group_layer,
            final(self)@.graph == old(self)@.graph,
            final(self)@.current_file == old(self)@.current_file,
            final(self)@.workspace_libs == old(self)@.workspace_libs,
        decreases trees_size(ts@), 4int,
    {
        proof {
            assert(ts@.take(0) =~= Seq::<UseTree>::empty());
        }
        let mut j: usize = 0;
        while j < ts.len()
            invariant
                j <= ts@.len(),
                old(self)@.use_stack.group_layer + trees_size(ts@) <= 32767,
                self@ == visit_trees_g(old(self)@, ts@.take(j as int)),
                self@.use_stack.group_layer == old(self)@.use_stack.group_layer,
                self@.graph == old(self)@.graph,
                self@.current_file == old(self)@.current_file,
                self@.workspace_libs == old(self)@.workspace_libs,
                trees_size(ts@.take(j as int)) <= trees_size(ts@),
            decreases ts@.len() - j,
        {
            proof {
                lemma_trees_size_take(ts@, j as int);
            }
            self.visit_use_tree(&ts[j]);
            proof {
                lemma_visit_trees_take(old(self)@, ts@, j as int);
            }
            j = j + 1;
        }
        proof {
            assert(ts@.take(ts@.len() as int) =~= ts@);
        }
    }

    /// Walks an import declaration and clears the use-path stack for the
    /// next one.
    pub fn visit_item_use(&mut self, tree: &UseTree)
        requires
            old(self)@.use_stack.group_layer + tree_size(*tree) <= 32767,
        ensures
            final(self)@ == visit_item_use_g(old(self)@, *tree),
            final(self)@.use_stack.group_layer == 1,
            final(self)@.graph == old(self)@.graph,
            final(self)@.current_file == old(self)@.current_file,
            final(self)@.workspace_libs == old(self)@.workspace_libs,
    {
        self.visit_use_tree(tree);
        self.use_stack.clear();
    }

    /// Records a module declaration as a library name of the current file.
    pub fn visit_item_mod(&mut self, module: &str)
        ensures
            final(self)@ == (StateV {
                current_libs: old(self)@.current_libs.push(
                    get_with_last_g(old(self)@.use_stack, module@),
                ),
                ..old(self)@
            }),
    {
        self.add_new_lib(module);
    }

    /// Graphs one function item: unless the allow-list is non-empty and
    /// misses the function's name, a Function node keyed by the current
    /// file and the function's name is inserted with its doc comments, the
    /// body is walked, and the attachment stack is emptied.
    pub fn visit_item_fn(&mut self, func: &FnItem, function_name: &Vec<String>)
        requires
            old(self)@.graph.nodes.len() + 1 + block_size(func.body) <= 32767,
            old(self)@.graph.layer + block_size(func.body) <= 32767,
            old(self)@.graph.layer_args + block_size(func.body) <= 32767,
        ensures
            final(self)@ == visit_item_fn_g(old(self)@, *func, function_name.deep_view()),
            final(self)@.graph.layer == old(self)@.graph.layer,
            final(self)@.graph.layer_args == old(self)@.graph.layer_args,
            final(self)@.graph.nodes.len() <= old(self)@.graph.nodes.len() + 1 + block_size(
                func.body,
            ),
            final(self)@.use_stack == old(self)@.use_stack,
            final(self)@.current_file == old(self)@.current_file,
            final(self)@.workspace_libs == old(self)@.workspace_libs,
            final(self)@.current_libs == old(self)@.current_libs,
    {
        let present = contains_string(function_name, func.name.as_str());
        if !present && function_name.len() != 0 {
            return ;
        }
        let mut key = self.current_file.clone();
        key.append("::");
        proof {
            reveal_strlit("::");
            assert("::"@ =~= path_sep());
        }
        key.append(func.name.as_str());
        let mut node = Node::new(key.as_str(), NodeType::Function);
        node.add_comments(func.doc.clone());
        let _id = self.graph.add_node(node);
        self.visit_block(&func.body);
        self.graph.clear_calls();
    }

    /// Walks every item of a parsed source file in order, graphing each
    /// function and recording each module and import name.  An empty
    /// allow-list means every function is walked.
    pub fn visit_file(&mut self, items: &Vec<Item>, function_name: &Vec<String>)
        requires
            old(self)@.graph.nodes.len() + items_size(items@) <= 32767,
            old(self)@.graph.layer + items_size(items@) <= 32767,
            old(self)@.graph.layer_args + items_size(items@) <= 32767,
            old(self)@.use_stack.group_layer + items_size(items@) <= 32767,
            items_size(items@) + 1 <= 32767,
        ensures
            final(self)@ == visit_items_g(old(self)@, items@, function_name.deep_view()),
    {
        proof {
            assert(items@.take(0) =~= Seq::<Item>::empty());
        }
        let mut j: usize = 0;
        while j < items.len()
            invariant
                j <= items@.len(),
                old(self)@.graph.nodes.len() + items_size(items@) <= 32767,
                old(self)@.graph.layer + items_size(items@) <= 32767,
                old(self)@.graph.layer_args + items_size(items@) <= 32767,
                old(self)@.use_stack.group_layer + items_size(items@) <= 32767,
                items_size(items@) + 1 <= 32767,
                self@ == visit_items_g(
                    old(self)@,
                    items@.take(j as int),
                    function_name.deep_view(),
                ),
                self@.graph.layer == old(self)@.graph.layer,
                self@.graph.layer_args == old(self)@.graph.layer_args,
                self@.graph.nodes.len() <= old(self)@.graph.nodes.len() + items_size(
                    items@.take(j as int),
                ),
                self@.use_stack.group_layer == old(self)@.use_stack.group_layer
                    || self@.use_stack.group_layer == 1,
                items_size(items@.take(j as int)) <= items_size(items@),
            decreases items@.len() - j,
        {
            proof {
                lemma_items_size_take(items@, j as int);
            }
            match &items[j] {
                Item::Fn { item } => {
                    self.visit_item_fn(item, function_name);
                },
                Item::Mod { name } => {
                    self.visit_item_mod(name.as_str());
                },
                Item::Use { tree } => {
                    self.visit_item_use(tree);
                },
                Item::Other => {},
            }
            proof {
                lemma_visit_items_take(old(self)@, items@, function_name.deep_view(), j as int);
            }
            j = j + 1;
        }
        proof {
            assert(items@.take(items@.len() as int) =~= items@);
        }
    }

    /// Walks one match arm's body.
    pub fn visit_arm(&mut self, arm: &Expr)
        requires
            old(self)@.graph.nodes.len() + expr_size(*arm) <= 32767,
            old(self)@.graph.layer + expr_size(*arm) <= 32767,
            old(self)@.graph.layer_args + expr_size(*arm) <= 32767,
        ensures
            final(self)@ == (StateV {
                graph: visit_expr_g(old(self)@.graph, *arm),
                ..old(self)@
            }),
        decreases expr_size(*arm), 4int,
    {
        self.visit_expr(arm);
    }
}

/// Walking an import tree touches only the use-path stack and the list of
/// the current file's libraries: the graph, the workspace members and the
/// current file name stay untouched.
pub proof fn lemma_use_tree_preserves(s: StateV, t: UseTree)
    ensures
        visit_use_tree_g(s, t).graph == s.graph,
        visit_use_tree_g(s, t).workspace_libs == s.workspace_libs,
        visit_use_tree_g(s, t).current_file == s.current_file,
    decreases tree_size(t), 3int,
{
    match t {
        UseTree::Path { ident, tree } => {
            let s1 = StateV { use_stack: insert_g(s.use_stack, ident@), ..s };
            lemma_use_tree_preserves(s1, *tree);
        },
        UseTree::Group { items } => {
            let s1 = StateV {
                use_stack: StackV {
                    group_layer: (s.use_stack.group_layer + 1) as i16,
                    ..s.use_stack
                },
                ..s
            };
            lemma_use_trees_preserve(s1, items@);
        },
        UseTree::Name { .. } => {},
        UseTree::Other => {},
    }
}

proof fn lemma_use_trees_preserve(s: StateV, ts: Seq<UseTree>)
    ensures
        visit_trees_g(s, ts).graph == s.graph,
        visit_trees_g(s, ts).workspace_libs == s.workspace_libs,
        visit_trees_g(s, ts).current_file == s.current_file,
    decreases trees_size(ts), 4int,
{
    if ts.len() != 0 {
        crate::ast::lemma_tree_size_pos(ts[0]);
        lemma_use_tree_preserves(s, ts[0]);
        lemma_use_trees_preserve(visit_use_tree_g(s, ts[0]), ts.drop_first());
    }
}

/// Processing an import declaration leaves the use-path stack fully
/// cleared — empty root, no recorded segments, group depth back at its
/// starting value — and touches neither the graph, the workspace members
/// nor the current file name.
pub proof fn lemma_item_use_clears_stack(s: StateV, t: UseTree)
    ensures
        visit_item_use_g(s, t).use_stack == (StackV {
            root: Seq::<char>::empty(),
            stack: Seq::<EntryV>::empty(),
            group_layer: 1,
        }),
        visit_item_use_g(s, t).graph == s.graph,
        visit_item_use_g(s, t).workspace_libs == s.workspace_libs,
        visit_item_use_g(s, t).current_file == s.current_file,
{
    lemma_use_tree_preserves(s, t);
}

} // verus!
