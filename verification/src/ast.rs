//! The closed syntax-tree model the traversal walks: expressions,
//! statements, patterns, items and import trees, holding exactly the
//! structure the graph engine reads.  Shapes the traversal does not
//! distinguish collapse into the `Other` variants.
use vstd::prelude::*;

verus! {

/// An expression of the analyzed language, reduced to the shapes the
/// traversal distinguishes.
pub enum Expr {
    /// A function-style call: the callee expression and its arguments.
    Call { func: Box<Expr>, args: Vec<Expr> },
    /// A method call on a receiver expression.
    MethodCall { receiver: Box<Expr>, method: String, args: Vec<Expr> },
    /// A macro-style invocation; its arguments are not walked.
    MacroCall { segments: Vec<String> },
    /// A bare path reference, as its segments.
    Path { segments: Vec<String> },
    /// A literal, as its source text.
    Lit { text: String },
    /// A tuple expression.
    Tuple { elems: Vec<Expr> },
    /// A parenthesized group.
    Paren { inner: Box<Expr> },
    /// A struct literal: the constructed type's path segments and the
    /// field value expressions in order.
    StructLit { segments: Vec<String>, fields: Vec<Expr> },
    /// A match: the scrutinee and the arm bodies in order.
    Match { scrutinee: Box<Expr>, arms: Vec<Expr> },
    /// A conditional with its then-block and optional else expression.
    If { cond: Box<Expr>, then_branch: Block, else_branch: Option<Box<Expr>> },
    /// A block in expression position.
    BlockExpr { block: Block },
    /// A reference-taking expression.
    Reference { inner: Box<Expr> },
    /// A binary operation; only the operands matter here.
    Binary { left: Box<Expr>, right: Box<Expr> },
    /// An explicit return.
    Return { inner: Option<Box<Expr>> },
    /// An await; only its base is walked.
    Await { base: Box<Expr> },
    /// A try (question-mark) expression.
    TryExpr { inner: Box<Expr> },
    /// A for loop: the iterated expression, then the body.
    ForLoop { iter: Box<Expr>, body: Block },
    /// A while loop: the condition, then the body.
    While { cond: Box<Expr>, body: Block },
    /// A bare loop: only its body.
    Loop { body: Block },
    /// A unary operation; walked only where a conditional drills into its
    /// condition.
    Unary { inner: Box<Expr> },
    /// A let inside a condition; walked only from a conditional.
    LetCond { init: Box<Expr> },
    /// Any other expression shape: ignored.
    Other,
}

/// A brace-delimited block of statements.
pub struct Block {
    pub stmts: Vec<Stmt>,
}

/// A statement of a block.
pub enum Stmt {
    /// A local binding with its pattern and optional initializer.
    Local { pat: Pat, init: Option<Expr> },
    /// An expression statement.
    ExprStmt { expr: Expr },
    /// Any other statement shape: ignored.
    Other,
}

/// A binding pattern, to the depth the traversal reads.
pub enum Pat {
    /// A plain identifier.
    Ident { name: String },
    /// A pattern with a type ascription.
    Typed { inner: Box<Pat> },
    /// A tuple pattern.
    Tuple { elems: Vec<Pat> },
    /// A tuple-struct pattern.
    TupleStruct { elems: Vec<Pat> },
    /// Any other pattern shape.
    Other,
}

/// One arm of an import declaration.
pub enum UseTree {
    /// A path segment followed by the rest of the tree.
    Path { ident: String, tree: Box<UseTree> },
    /// A braced group of subtrees.
    Group { items: Vec<UseTree> },
    /// A final plain name.
    Name { name: String },
    /// Renames, globs and the like: ignored.
    Other,
}

/// A function item: its name, its doc comments in order, and its body.
pub struct FnItem {
    pub name: String,
    pub doc: Vec<String>,
    pub body: Block,
}

/// A top-level item of a source file, reduced to the shapes the traversal
/// distinguishes.
pub enum Item {
    /// A function item.
    Fn { item: FnItem },
    /// A module declaration, by name; its contents are not walked.
    Mod { name: String },
    /// An import declaration.
    Use { tree: UseTree },
    /// Structs, enums, impls and everything else: ignored.
    Other,
}

/// Number of syntax elements in an expression, counting the expression
/// itself; the measure every traversal bound rests on.
pub open spec fn expr_size(e: Expr) -> nat
    decreases e,
{
    match e {
        Expr::Call { func, args } => 1 + expr_size(*func) + exprs_size(args@),
        Expr::MethodCall { receiver, method, args } => 1 + expr_size(*receiver) + exprs_size(
            args@,
        ),
        Expr::MacroCall { segments } => 1,
        Expr::Path { segments } => 1,
        Expr::Lit { text } => 1,
        Expr::Tuple { elems } => 1 + exprs_size(elems@),
        Expr::Paren { inner } => 1 + expr_size(*inner),
        Expr::StructLit { segments, fields } => 1 + exprs_size(fields@),
        Expr::Match { scrutinee, arms } => 1 + expr_size(*scrutinee) + exprs_size(arms@),
        Expr::If { cond, then_branch, else_branch } => 1 + expr_size(*cond) + block_size(
            then_branch,
        ) + match else_branch {
            Some(e2) => expr_size(*e2),
            None => 0,
        },
        Expr::BlockExpr { block } => 1 + block_size(block),
        Expr::Reference { inner } => 1 + expr_size(*inner),
        Expr::Binary { left, right } => 1 + expr_size(*left) + expr_size(*right),
        Expr::Return { inner } => 1 + match inner {
            Some(e2) => expr_size(*e2),
            None => 0,
        },
        Expr::Await { base } => 1 + expr_size(*base),
        Expr::TryExpr { inner } => 1 + expr_size(*inner),
        Expr::ForLoop { iter, body } => 1 + expr_size(*iter) + block_size(body),
        Expr::While { cond, body } => 1 + expr_size(*cond) + block_size(body),
        Expr::Loop { body } => 1 + block_size(body),
        Expr::Unary { inner } => 1 + expr_size(*inner),
        Expr::LetCond { init } => 1 + expr_size(*init),
        Expr::Other => 1,
    }
}

/// Weight of an optional initializer expression.
pub open spec fn opt_expr_size(o: Option<Expr>) -> nat {
    match o {
        Some(e) => expr_size(e),
        None => 0,
    }
}

/// Weight of an optional boxed expression.
pub open spec fn opt_box_expr_size(o: Option<Box<Expr>>) -> nat {
    match o {
        Some(e) => expr_size(*e),
        None => 0,
    }
}

pub open spec fn exprs_size(es: Seq<Expr>) -> nat
    decreases es,
{
    if es.len() == 0 {
        0
    } else {
        expr_size(es[0]) + exprs_size(es.drop_first())
    }
}

pub open spec fn block_size(b: Block) -> nat
    decreases b,
{
    1 + stmts_size(b.stmts@)
}

pub open spec fn stmts_size(ss: Seq<Stmt>) -> nat
    decreases ss,
{
    if ss.len() == 0 {
        0
    } else {
        stmt_size(ss[0]) + stmts_size(ss.drop_first())
    }
}

pub open spec fn stmt_size(s: Stmt) -> nat
    decreases s,
{
    match s {
        Stmt::Local { pat, init } => 1 + match init {
            Some(e) => expr_size(e),
            None => 0,
        },
        Stmt::ExprStmt { expr } => 1 + expr_size(expr),
        Stmt::Other => 1,
    }
}

pub open spec fn tree_size(t: UseTree) -> nat
    decreases t,
{
    match t {
        UseTree::Path { ident, tree } => 1 + tree_size(*tree),
        UseTree::Group { items } => 1 + trees_size(items@),
        UseTree::Name { name } => 1,
        UseTree::Other => 1,
    }
}

pub open spec fn trees_size(ts: Seq<UseTree>) -> nat
    decreases ts,
{
    if ts.len() == 0 {
        0
    } else {
        tree_size(ts[0]) + trees_size(ts.drop_first())
    }
}

pub open spec fn item_size(it: Item) -> nat {
    match it {
        Item::Fn { item } => 1 + block_size(item.body),
        Item::Mod { name } => 1,
        Item::Use { tree } => 1 + tree_size(tree),
        Item::Other => 1,
    }
}

pub open spec fn items_size(its: Seq<Item>) -> nat
    decreases its,
{
    if its.len() == 0 {
        0
    } else {
        item_size(its[0]) + items_size(its.drop_first())
    }
}

/// The name of the first plain-identifier element of `ps` at or after
/// position `i`, if any.
pub open spec fn first_ident_from(ps: Seq<Pat>, i: int) -> Option<Seq<char>>
    decreases ps.len() - i,
{
    if i < 0 || i >= ps.len() {
        None
    } else {
        match ps[i] {
            Pat::Ident { name } => Some(name@),
            _ => first_ident_from(ps, i + 1),
        }
    }
}

/// The binding name a local pattern registers: a plain identifier's name,
/// the identifier under one type ascription, or the first identifier
/// element of a tuple pattern.  Deeper shapes register nothing.
pub open spec fn pat_name(p: Pat) -> Option<Seq<char>> {
    match p {
        Pat::Ident { name } => Some(name@),
        Pat::Typed { inner } => match *inner {
            Pat::Ident { name } => Some(name@),
            _ => None,
        },
        Pat::Tuple { elems } => first_ident_from(elems@, 0),
        Pat::TupleStruct { elems } => None,
        Pat::Other => None,
    }
}

/// Every expression weighs at least one element.
pub proof fn lemma_expr_size_pos(e: Expr)
    ensures
        expr_size(e) >= 1,
{
}

/// Every statement weighs at least one element.
pub proof fn lemma_stmt_size_pos(s: Stmt)
    ensures
        stmt_size(s) >= 1,
{
}

/// Every import subtree weighs at least one element.
pub proof fn lemma_tree_size_pos(t: UseTree)
    ensures
        tree_size(t) >= 1,
{
}

/// Prefix decomposition of a sequence's size: one more element adds that
/// element's weight, and no prefix outweighs the whole.
pub proof fn lemma_exprs_size_take(es: Seq<Expr>, i: int)
    requires
        0 <= i < es.len(),
    ensures
        exprs_size(es.take(i + 1)) == exprs_size(es.take(i)) + expr_size(es[i]),
        exprs_size(es.take(i + 1)) <= exprs_size(es),
    decreases i,
{
    if i == 0 {
        assert(es.take(0) =~= Seq::<Expr>::empty());
        assert(exprs_size(Seq::<Expr>::empty()) == 0);
        assert(es.take(1).drop_first() =~= Seq::<Expr>::empty());
        assert(es.take(1)[0] == es[0]);
        assert(exprs_size(es.take(1)) == expr_size(es[0]) + exprs_size(es.take(1).drop_first()));
        assert(exprs_size(es) == expr_size(es[0]) + exprs_size(es.drop_first()));
    } else {
        lemma_exprs_size_take(es.drop_first(), i - 1);
        assert(es.take(i + 1).drop_first() =~= es.drop_first().take(i));
        assert(es.take(i).drop_first() =~= es.drop_first().take(i - 1));
        assert(es.take(i + 1)[0] == es[0]);
        assert(es.take(i)[0] == es[0]);
        assert(exprs_size(es.take(i + 1)) == expr_size(es[0]) + exprs_size(
            es.drop_first().take(i),
        ));
        assert(exprs_size(es.take(i)) == expr_size(es[0]) + exprs_size(
            es.drop_first().take(i - 1),
        ));
        assert(es.drop_first()[i - 1] == es[i]);
        assert(exprs_size(es) == expr_size(es[0]) + exprs_size(es.drop_first()));
    }
}

/// Prefix decomposition for statement sequences.
pub proof fn lemma_stmts_size_take(ss: Seq<Stmt>, i: int)
    requires
        0 <= i < ss.len(),
    ensures
        stmts_size(ss.take(i + 1)) == stmts_size(ss.take(i)) + stmt_size(ss[i]),
        stmts_size(ss.take(i + 1)) <= stmts_size(ss),
    decreases i,
{
    if i == 0 {
        assert(ss.take(0) =~= Seq::<Stmt>::empty());
        assert(stmts_size(Seq::<Stmt>::empty()) == 0);
        assert(ss.take(1).drop_first() =~= Seq::<Stmt>::empty());
        assert(ss.take(1)[0] == ss[0]);
        assert(stmts_size(ss.take(1)) == stmt_size(ss[0]) + stmts_size(ss.take(1).drop_first()));
        assert(stmts_size(ss) == stmt_size(ss[0]) + stmts_size(ss.drop_first()));
    } else {
        lemma_stmts_size_take(ss.drop_first(), i - 1);
        assert(ss.take(i + 1).drop_first() =~= ss.drop_first().take(i));
        assert(ss.take(i).drop_first() =~= ss.drop_first().take(i - 1));
        assert(ss.take(i + 1)[0] == ss[0]);
        assert(ss.take(i)[0] == ss[0]);
        assert(stmts_size(ss.take(i + 1)) == stmt_size(ss[0]) + stmts_size(
            ss.drop_first().take(i),
        ));
        assert(stmts_size(ss.take(i)) == stmt_size(ss[0]) + stmts_size(
            ss.drop_first().take(i - 1),
        ));
        assert(ss.drop_first()[i - 1] == ss[i]);
        assert(stmts_size(ss) == stmt_size(ss[0]) + stmts_size(ss.drop_first()));
    }
}

/// Prefix decomposition for import subtree sequences.
pub proof fn lemma_trees_size_take(ts: Seq<UseTree>, i: int)
    requires
        0 <= i < ts.len(),
    ensures
        trees_size(ts.take(i + 1)) == trees_size(ts.take(i)) + tree_size(ts[i]),
        trees_size(ts.take(i + 1)) <= trees_size(ts),
    decreases i,
{
    if i == 0 {
        assert(ts.take(0) =~= Seq::<UseTree>::empty());
        assert(trees_size(Seq::<UseTree>::empty()) == 0);
        assert(ts.take(1).drop_first() =~= Seq::<UseTree>::empty());
        assert(ts.take(1)[0] == ts[0]);
        assert(trees_size(ts.take(1)) == tree_size(ts[0]) + trees_size(ts.take(1).drop_first()));
        assert(trees_size(ts) == tree_size(ts[0]) + trees_size(ts.drop_first()));
    } else {
        lemma_trees_size_take(ts.drop_first(), i - 1);
        assert(ts.take(i + 1).drop_first() =~= ts.drop_first().take(i));
        assert(ts.take(i).drop_first() =~= ts.drop_first().take(i - 1));
        assert(ts.take(i + 1)[0] == ts[0]);
        assert(ts.take(i)[0] == ts[0]);
        assert(trees_size(ts.take(i + 1)) == tree_size(ts[0]) + trees_size(
            ts.drop_first().take(i),
        ));
        assert(trees_size(ts.take(i)) == tree_size(ts[0]) + trees_size(
            ts.drop_first().take(i - 1),
        ));
        assert(ts.drop_first()[i - 1] == ts[i]);
        assert(trees_size(ts) == tree_size(ts[0]) + trees_size(ts.drop_first()));
    }
}

/// Prefix decomposition for item sequences.
pub proof fn lemma_items_size_take(its: Seq<Item>, i: int)
    requires
        0 <= i < its.len(),
    ensures
        items_size(its.take(i + 1)) == items_size(its.take(i)) + item_size(its[i]),
        items_size(its.take(i + 1)) <= items_size(its),
    decreases i,
{
    if i == 0 {
        assert(its.take(0) =~= Seq::<Item>::empty());
        assert(items_size(Seq::<Item>::empty()) == 0);
        assert(its.take(1).drop_first() =~= Seq::<Item>::empty());
        assert(its.take(1)[0] == its[0]);
        assert(items_size(its.take(1)) == item_size(its[0]) + items_size(
            its.take(1).drop_first(),
        ));
        assert(items_size(its) == item_size(its[0]) + items_size(its.drop_first()));
    } else {
        lemma_items_size_take(its.drop_first(), i - 1);
        assert(its.take(i + 1).drop_first() =~= its.drop_first().take(i));
        assert(its.take(i).drop_first() =~= its.drop_first().take(i - 1));
        assert(its.take(i + 1)[0] == its[0]);
        assert(its.take(i)[0] == its[0]);
        assert(items_size(its.take(i + 1)) == item_size(its[0]) + items_size(
            its.drop_first().take(i),
        ));
        assert(items_size(its.take(i)) == item_size(its[0]) + items_size(
            its.drop_first().take(i - 1),
        ));
        assert(its.drop_first()[i - 1] == its[i]);
        assert(items_size(its) == item_size(its[0]) + items_size(its.drop_first()));
    }
}

} // verus!
