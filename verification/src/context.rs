//! The context extractor: walks the concrete syntax tree around the cursor
//! byte offset and derives a [`CompletionContext`], the closed bundle of
//! facts that the relevance filter and scorer read.
//!
//! Every lookup that can fail on a malformed, mid-typing tree yields an
//! absent field, never a failure of the whole extraction.

use vstd::prelude::*;

use crate::schema_cache::{SchemaCache, SchemaCacheView};
use crate::syntax_tree::{opt_as_int, spec_node_at, NodeKind, SyntaxTree};

verus! {

/// The nearest enclosing clause of the cursor position.
///
/// For `Join`, `on_node` records the start byte of the clause's `ON`
/// sub-node where one exists; the filter needs it to distinguish positions
/// before the `ON` (still join-target positions) from positions after it.
/// A clause-like node that introduces none of the six listed clauses (such
/// as the `SET` list of an `UPDATE`) yields `Other`.
#[derive(Clone, Copy, Debug, PartialEq, Eq, Structural)]
pub enum WrappingClause {
    Select,
    From,
    Where,
    Join { on_node: Option<usize> },
    Update,
    Delete,
    Other,
}

/// The nearest enclosing structural (non-clause) node of a known kind.
#[derive(Clone, Copy, Debug, PartialEq, Eq, Structural)]
pub enum WrappingNode {
    BinaryExpression,
    Relation,
}

/// Mathematical image of a [`NodeUnderCursor`].
pub ghost struct NodeUnderCursorView {
    pub kind: NodeKind,
    pub text: Seq<char>,
    pub start_byte: int,
    pub end_byte: int,
    pub prev_kind: Option<NodeKind>,
}

/// The facts the pipeline reads of the node under the cursor: its kind and
/// byte range, its token text, and the kind of the sibling just before it.
pub struct NodeUnderCursor {
    pub kind: NodeKind,
    pub text: String,
    pub start_byte: usize,
    pub end_byte: usize,
    pub prev_kind: Option<NodeKind>,
}

impl View for NodeUnderCursor {
    type V = NodeUnderCursorView;

    open spec fn view(&self) -> NodeUnderCursorView {
        NodeUnderCursorView {
            kind: self.kind,
            text: self.text@,
            start_byte: self.start_byte as int,
            end_byte: self.end_byte as int,
            prev_kind: self.prev_kind,
        }
    }
}

/// Mathematical image of a [`TableAlias`].
pub ghost struct TableAliasView {
    pub alias: Seq<char>,
    pub table_name: Seq<char>,
}

/// One `table [AS] alias` binding read off the statement's `FROM`/`JOIN`
/// source list. A self-join binds several aliases to one table.
pub struct TableAlias {
    pub alias: String,
    pub table_name: String,
}

impl View for TableAlias {
    type V = TableAliasView;

    open spec fn view(&self) -> TableAliasView {
        TableAliasView { alias: self.alias@, table_name: self.table_name@ }
    }
}

/// Mathematical image of a [`CompletionContext`].
pub ghost struct CompletionContextView {
    pub cache: SchemaCacheView,
    pub node_under_cursor: Option<NodeUnderCursorView>,
    pub wrapping_clause_type: Option<WrappingClause>,
    pub wrapping_node_kind: Option<WrappingNode>,
    pub is_invocation: bool,
    pub mentioned_table_aliases: Seq<TableAliasView>,
    pub schema_or_alias_name: Option<Seq<char>>,
}

/// The derived, request-scoped context: built once per completion request,
/// read-only afterwards, threaded into every candidate provider.
pub struct CompletionContext<'a> {
    pub schema_cache: &'a SchemaCache,
    pub node_under_cursor: Option<NodeUnderCursor>,
    pub wrapping_clause_type: Option<WrappingClause>,
    pub wrapping_node_kind: Option<WrappingNode>,
    pub is_invocation: bool,
    pub mentioned_table_aliases: Vec<TableAlias>,
    pub schema_or_alias_name: Option<String>,
}

impl<'a> View for CompletionContext<'a> {
    type V = CompletionContextView;

    open spec fn view(&self) -> CompletionContextView {
        CompletionContextView {
            cache: self.schema_cache@,
            node_under_cursor: match self.node_under_cursor {
                Some(n) => Some(n@),
                None => None,
            },
            wrapping_clause_type: self.wrapping_clause_type,
            wrapping_node_kind: self.wrapping_node_kind,
            is_invocation: self.is_invocation,
            mentioned_table_aliases: self.mentioned_table_aliases@.map_values(
                |a: TableAlias| a@,
            ),
            schema_or_alias_name: match self.schema_or_alias_name {
                Some(ref s) => Some(s@),
                None => None,
            },
        }
    }
}

/// The start byte of the first node of kind `On` in the sibling chain
/// beginning at `c`.
pub open spec fn spec_on_child_start(t: SyntaxTree, c: int) -> Option<usize>
    decreases t.spec_len() - c,
{
    if !(0 <= c < t.spec_len()) {
        None
    } else if t.spec_node(c).kind == NodeKind::On {
        Some(t.spec_node(c).start)
    } else {
        match t.spec_node(c).next_sibling {
            Some(n) => if c < n < t.spec_len() {
                spec_on_child_start(t, n as int)
            } else {
                None
            },
            None => None,
        }
    }
}

/// The start byte of the `ON` sub-node of the clause node `i`, where one
/// exists.
pub open spec fn spec_on_of_join(t: SyntaxTree, i: int) -> Option<usize> {
    if !(0 <= i < t.spec_len()) {
        None
    } else {
        match t.spec_node(i).first_child {
            Some(fc) => if i < fc < t.spec_len() {
                spec_on_child_start(t, fc as int)
            } else {
                None
            },
            None => None,
        }
    }
}

/// The wrapping clause of node `i`: the clause that the nearest
/// clause-introducing ancestor (the node itself included) establishes.
pub open spec fn spec_clause_at(t: SyntaxTree, i: int) -> Option<WrappingClause>
    decreases i,
{
    if !(0 <= i < t.spec_len()) {
        None
    } else {
        let k = t.spec_node(i).kind;
        if k == NodeKind::Select {
            Some(WrappingClause::Select)
        } else if k == NodeKind::From {
            Some(WrappingClause::From)
        } else if k == NodeKind::Where {
            Some(WrappingClause::Where)
        } else if k == NodeKind::Update {
            Some(WrappingClause::Update)
        } else if k == NodeKind::Delete {
            Some(WrappingClause::Delete)
        } else if k == NodeKind::Join {
            Some(WrappingClause::Join { on_node: spec_on_of_join(t, i) })
        } else if k == NodeKind::SetClause {
            Some(WrappingClause::Other)
        } else {
            match t.spec_node(i).parent {
                Some(p) => if 0 <= p < i {
                    spec_clause_at(t, p as int)
                } else {
                    None
                },
                None => None,
            }
        }
    }
}

/// The nearest ancestor (the node itself included) of a known structural
/// kind.
pub open spec fn spec_wrapping_node_at(t: SyntaxTree, i: int) -> Option<WrappingNode>
    decreases i,
{
    if !(0 <= i < t.spec_len()) {
        None
    } else {
        let k = t.spec_node(i).kind;
        if k == NodeKind::BinaryExpression {
            Some(WrappingNode::BinaryExpression)
        } else if k == NodeKind::Relation {
            Some(WrappingNode::Relation)
        } else {
            match t.spec_node(i).parent {
                Some(p) => if 0 <= p < i {
                    spec_wrapping_node_at(t, p as int)
                } else {
                    None
                },
                None => None,
            }
        }
    }
}

/// Whether the cursor sits in function-call position: the node under the
/// cursor, or its immediate predecessor, is an open parenthesis immediately
/// preceded by an identifier.
pub open spec fn spec_is_invocation_at(t: SyntaxTree, i: int) -> bool {
    if !(0 <= i < t.spec_len()) {
        false
    } else {
        let n = t.spec_node(i);
        if n.kind == NodeKind::OpenParen {
            spec_prev_kind(t, i) == Some(NodeKind::Identifier)
        } else {
            match n.prev_sibling {
                Some(p) => if 0 <= p < t.spec_len() {
                    t.spec_node(p as int).kind == NodeKind::OpenParen && spec_prev_kind(
                        t,
                        p as int,
                    ) == Some(NodeKind::Identifier)
                } else {
                    false
                },
                None => false,
            }
        }
    }
}

/// The kind of the sibling just before node `i`, where one exists.
pub open spec fn spec_prev_kind(t: SyntaxTree, i: int) -> Option<NodeKind> {
    if !(0 <= i < t.spec_len()) {
        None
    } else {
        match t.spec_node(i).prev_sibling {
            Some(p) => if 0 <= p < t.spec_len() {
                Some(t.spec_node(p as int).kind)
            } else {
                None
            },
            None => None,
        }
    }
}

/// The explicit qualifier typed before the cursor: the identifier of an
/// `identifier '.'` pair that immediately precedes the node under the
/// cursor (the cursor may rest on the dot itself or on the partial
/// identifier after it).
pub open spec fn spec_qualifier_at(t: SyntaxTree, i: int) -> Option<Seq<char>>
    decreases 1int,
{
    if !(0 <= i < t.spec_len()) {
        None
    } else {
        let n = t.spec_node(i);
        if n.kind == NodeKind::Dot {
            spec_ident_text(t, n.prev_sibling)
        } else {
            match n.prev_sibling {
                Some(p) => if 0 <= p < t.spec_len() && t.spec_node(p as int).kind
                    == NodeKind::Dot {
                    spec_ident_text(t, t.spec_node(p as int).prev_sibling)
                } else {
                    None
                },
                None => None,
            }
        }
    }
}

/// The text of node `j`, where `j` names an identifier node.
pub open spec fn spec_ident_text(t: SyntaxTree, j: Option<usize>) -> Option<Seq<char>> {
    match j {
        Some(p) => if 0 <= p < t.spec_len() && t.spec_node(p as int).kind
            == NodeKind::Identifier {
            Some(t.spec_node(p as int).text@)
        } else {
            None
        },
        None => None,
    }
}

/// The first node of kind `k` in the sibling chain beginning at `c`.
pub open spec fn spec_child_of_kind(t: SyntaxTree, c: int, k: NodeKind) -> Option<int>
    decreases t.spec_len() - c,
{
    if !(0 <= c < t.spec_len()) {
        None
    } else if t.spec_node(c).kind == k {
        Some(c)
    } else {
        match t.spec_node(c).next_sibling {
            Some(n) => if c < n < t.spec_len() {
                spec_child_of_kind(t, n as int, k)
            } else {
                None
            },
            None => None,
        }
    }
}

/// The text of the last identifier in the sibling chain beginning at `c`:
/// for an object reference `schema.name`, the unqualified `name`.
pub open spec fn spec_last_ident_from(t: SyntaxTree, c: int) -> Option<Seq<char>>
    decreases t.spec_len() - c,
{
    if !(0 <= c < t.spec_len()) {
        None
    } else {
        let rest = match t.spec_node(c).next_sibling {
            Some(n) => if c < n < t.spec_len() {
                spec_last_ident_from(t, n as int)
            } else {
                None
            },
            None => None,
        };
        match rest {
            Some(x) => Some(x),
            None => if t.spec_node(c).kind == NodeKind::Identifier {
                Some(t.spec_node(c).text@)
            } else {
                None
            },
        }
    }
}

/// The alias binding node `i` contributes: for a `Relation` node under a
/// `FROM` or `JOIN` clause whose children hold an object reference and a
/// trailing alias identifier, the pair of alias and unqualified table name.
pub open spec fn spec_relation_alias(t: SyntaxTree, i: int) -> Option<TableAliasView> {
    if !(0 <= i < t.spec_len()) {
        None
    } else if t.spec_node(i).kind != NodeKind::Relation {
        None
    } else if !(match t.spec_node(i).parent {
        Some(p) => 0 <= p < t.spec_len() && (t.spec_node(p as int).kind == NodeKind::From
            || t.spec_node(p as int).kind == NodeKind::Join),
        None => false,
    }) {
        None
    } else {
        match t.spec_node(i).first_child {
            Some(fc) => if i < fc < t.spec_len() {
                let objref = spec_child_of_kind(t, fc as int, NodeKind::ObjectReference);
                let alias = spec_child_of_kind(t, fc as int, NodeKind::Identifier);
                match (objref, alias) {
                    (Some(o), Some(a)) => {
                        let table = match t.spec_node(o).first_child {
                            Some(ofc) => if o < ofc < t.spec_len() {
                                spec_last_ident_from(t, ofc as int)
                            } else {
                                None
                            },
                            None => None,
                        };
                        match table {
                            Some(tb) => Some(
                                TableAliasView { alias: t.spec_node(a).text@, table_name: tb },
                            ),
                            None => None,
                        }
                    },
                    _ => None,
                }
            } else {
                None
            },
            None => None,
        }
    }
}

/// The alias bindings contributed by the first `n` nodes of the arena, in
/// arena order.
pub open spec fn spec_aliases_upto(t: SyntaxTree, n: int) -> Seq<TableAliasView>
    decreases n,
{
    if n <= 0 {
        Seq::empty()
    } else {
        match spec_relation_alias(t, n - 1) {
            Some(a) => spec_aliases_upto(t, n - 1).push(a),
            None => spec_aliases_upto(t, n - 1),
        }
    }
}

/// Every alias binding the statement's `FROM`/`JOIN` source list mentions.
pub open spec fn spec_aliases(t: SyntaxTree) -> Seq<TableAliasView> {
    spec_aliases_upto(t, t.spec_len())
}

/// The facts of the node under the cursor, where one exists.
pub open spec fn spec_node_view_at(t: SyntaxTree, off: int) -> Option<NodeUnderCursorView> {
    match spec_node_at(t, off) {
        Some(i) => if 0 <= i < t.spec_len() {
            Some(
                NodeUnderCursorView {
                    kind: t.spec_node(i).kind,
                    text: t.spec_node(i).text@,
                    start_byte: t.spec_node(i).start as int,
                    end_byte: t.spec_node(i).end as int,
                    prev_kind: spec_prev_kind(t, i),
                },
            )
        } else {
            None
        },
        None => None,
    }
}

/// The whole derived context for a cursor offset.
pub open spec fn spec_context(t: SyntaxTree, cache: SchemaCacheView, off: int)
    -> CompletionContextView {
    CompletionContextView {
        cache: cache,
        node_under_cursor: spec_node_view_at(t, off),
        wrapping_clause_type: match spec_node_at(t, off) {
            Some(i) => spec_clause_at(t, i),
            None => None,
        },
        wrapping_node_kind: match spec_node_at(t, off) {
            Some(i) => spec_wrapping_node_at(t, i),
            None => None,
        },
        is_invocation: match spec_node_at(t, off) {
            Some(i) => spec_is_invocation_at(t, i),
            None => false,
        },
        mentioned_table_aliases: spec_aliases(t),
        schema_or_alias_name: match spec_node_at(t, off) {
            Some(i) => spec_qualifier_at(t, i),
            None => None,
        },
    }
}

/// The start byte of the first `On` node in the sibling chain beginning at
/// `c`.
fn on_child_start(tree: &SyntaxTree, c: usize) -> (r: Option<usize>)
    requires
        tree.wf(),
        c < tree.spec_len(),
    ensures
        r == spec_on_child_start(*tree, c as int),
    decreases tree.spec_len() - c,
{
    if tree.kind(c) == NodeKind::On {
        return Some(tree.start_byte(c));
    }
    match tree.next_sibling(c) {
        Some(n) => on_child_start(tree, n),
        None => None,
    }
}

/// The wrapping clause of node `i`.
fn clause_at(tree: &SyntaxTree, i: usize) -> (r: Option<WrappingClause>)
    requires
        tree.wf(),
        i < tree.spec_len(),
    ensures
        r == spec_clause_at(*tree, i as int),
    decreases i,
{
    match tree.kind(i) {
        NodeKind::Select => Some(WrappingClause::Select),
        NodeKind::From => Some(WrappingClause::From),
        NodeKind::Where => Some(WrappingClause::Where),
        NodeKind::Update => Some(WrappingClause::Update),
        NodeKind::Delete => Some(WrappingClause::Delete),
        NodeKind::Join => {
            let on = match tree.first_child(i) {
                Some(fc) => on_child_start(tree, fc),
                None => None,
            };
            Some(WrappingClause::Join { on_node: on })
        },
        NodeKind::SetClause => Some(WrappingClause::Other),
        _ => {
            match tree.parent(i) {
                Some(p) => clause_at(tree, p),
                None => None,
            }
        },
    }
}

/// The nearest enclosing structural node of a known kind.
fn wrapping_node_at(tree: &SyntaxTree, i: usize) -> (r: Option<WrappingNode>)
    requires
        tree.wf(),
        i < tree.spec_len(),
    ensures
        r == spec_wrapping_node_at(*tree, i as int),
    decreases i,
{
    match tree.kind(i) {
        NodeKind::BinaryExpression => Some(WrappingNode::BinaryExpression),
        NodeKind::Relation => Some(WrappingNode::Relation),
        _ => {
            match tree.parent(i) {
                Some(p) => wrapping_node_at(tree, p),
                None => None,
            }
        },
    }
}

/// Whether the cursor sits in function-call position.
fn is_invocation_at(tree: &SyntaxTree, i: usize) -> (r: bool)
    requires
        tree.wf(),
        i < tree.spec_len(),
    ensures
        r == spec_is_invocation_at(*tree, i as int),
{
    if tree.kind(i) == NodeKind::OpenParen {
        return prev_kind_of(tree, i) == Some(NodeKind::Identifier);
    }
    match tree.prev_sibling(i) {
        Some(p) => tree.kind(p) == NodeKind::OpenParen && prev_kind_of(tree, p) == Some(
            NodeKind::Identifier,
        ),
        None => false,
    }
}

/// The kind of the sibling just before node `i`.
fn prev_kind_of(tree: &SyntaxTree, i: usize) -> (r: Option<NodeKind>)
    requires
        tree.wf(),
        i < tree.spec_len(),
    ensures
        r == spec_prev_kind(*tree, i as int),
{
    match tree.prev_sibling(i) {
        Some(p) => Some(tree.kind(p)),
        None => None,
    }
}

/// The text of node `j`, where `j` names an identifier node.
fn ident_text_of(tree: &SyntaxTree, j: Option<usize>) -> (r: Option<String>)
    requires
        tree.wf(),
        j matches Some(p) ==> p < tree.spec_len(),
    ensures
        (match r {
            Some(ref s) => Some(s@),
            None => None,
        }) == spec_ident_text(*tree, j),
{
    match j {
        Some(p) => {
            if tree.kind(p) == NodeKind::Identifier {
                Some(tree.text(p).clone())
            } else {
                None
            }
        },
        None => None,
    }
}

/// The explicit qualifier typed before the cursor, where one exists.
fn qualifier_at(tree: &SyntaxTree, i: usize) -> (r: Option<String>)
    requires
        tree.wf(),
        i < tree.spec_len(),
    ensures
        (match r {
            Some(ref s) => Some(s@),
            None => None,
        }) == spec_qualifier_at(*tree, i as int),
{
    if tree.kind(i) == NodeKind::Dot {
        return ident_text_of(tree, tree.prev_sibling(i));
    }
    match tree.prev_sibling(i) {
        Some(p) => {
            if tree.kind(p) == NodeKind::Dot {
                ident_text_of(tree, tree.prev_sibling(p))
            } else {
                None
            }
        },
        None => None,
    }
}

/// The first node of kind `k` in the sibling chain beginning at `c`.
fn child_of_kind(tree: &SyntaxTree, c: usize, k: NodeKind) -> (r: Option<usize>)
    requires
        tree.wf(),
        c < tree.spec_len(),
    ensures
        opt_as_int(r) == spec_child_of_kind(*tree, c as int, k),
        r matches Some(j) ==> j < tree.spec_len(),
    decreases tree.spec_len() - c,
{
    if tree.kind(c) == k {
        return Some(c);
    }
    match tree.next_sibling(c) {
        Some(n) => child_of_kind(tree, n, k),
        None => None,
    }
}

/// The text of the last identifier in the sibling chain beginning at `c`.
fn last_ident_from(tree: &SyntaxTree, c: usize) -> (r: Option<String>)
    requires
        tree.wf(),
        c < tree.spec_len(),
    ensures
        (match r {
            Some(ref s) => Some(s@),
            None => None,
        }) == spec_last_ident_from(*tree, c as int),
    decreases tree.spec_len() - c,
{
    let rest = match tree.next_sibling(c) {
        Some(n) => last_ident_from(tree, n),
        None => None,
    };
    match rest {
        Some(x) => Some(x),
        None => {
            if tree.kind(c) == NodeKind::Identifier {
                Some(tree.text(c).clone())
            } else {
                None
            }
        },
    }
}

/// The alias binding node `i` contributes, where it is an aliased relation.
fn relation_alias(tree: &SyntaxTree, i: usize) -> (r: Option<TableAlias>)
    requires
        tree.wf(),
        i < tree.spec_len(),
    ensures
        (match r {
            Some(ref a) => Some(a@),
            None => None,
        }) == spec_relation_alias(*tree, i as int),
{
    if tree.kind(i) != NodeKind::Relation {
        return None;
    }
    let parent_ok = match tree.parent(i) {
        Some(p) => tree.kind(p) == NodeKind::From || tree.kind(p) == NodeKind::Join,
        None => false,
    };
    if !parent_ok {
        return None;
    }
    let fc = match tree.first_child(i) {
        Some(fc) => fc,
        None => {
            return None;
        },
    };
    let objref = child_of_kind(tree, fc, NodeKind::ObjectReference);
    let alias = child_of_kind(tree, fc, NodeKind::Identifier);
    match (objref, alias) {
        (Some(o), Some(a)) => {
            let table = match tree.first_child(o) {
                Some(ofc) => last_ident_from(tree, ofc),
                None => None,
            };
            match table {
                Some(tb) => Some(TableAlias { alias: tree.text(a).clone(), table_name: tb }),
                None => None,
            }
        },
        _ => None,
    }
}

/// Every alias binding of the statement, in arena order.
fn extract_aliases(tree: &SyntaxTree) -> (r: Vec<TableAlias>)
    requires
        tree.wf(),
    ensures
        r@.map_values(|a: TableAlias| a@) == spec_aliases(*tree),
{
    let mut out: Vec<TableAlias> = Vec::new();
    let n = tree.len();
    let mut i: usize = 0;
    proof {
        assert(out@.map_values(|a: TableAlias| a@) =~= spec_aliases_upto(*tree, 0));
    }
    while i < n
        invariant
            tree.wf(),
            n == tree.spec_len(),
            i <= n,
            out@.map_values(|a: TableAlias| a@) == spec_aliases_upto(*tree, i as int),
        decreases n - i,
    {
        let ghost prev = out@.map_values(|a: TableAlias| a@);
        match relation_alias(tree, i) {
            Some(a) => {
                let ghost av = a@;
                out.push(a);
                proof {
                    assert(out@.map_values(|x: TableAlias| x@) =~= prev.push(av));
                }
            },
            None => {},
        }
        i += 1;
    }
    out
}

/// Builds the completion context for one request: the node under the
/// cursor, its wrapping clause and structural node, the invocation flag,
/// the alias bindings and the explicit qualifier.
pub fn extract_context<'a>(
    tree: &SyntaxTree,
    cache: &'a SchemaCache,
    offset: usize,
) -> (ctx: CompletionContext<'a>)
    requires
        tree.wf(),
    ensures
        ctx@ == spec_context(*tree, cache@, offset as int),
{
    let node = tree.node_at_offset(offset);
    let (node_under_cursor, wrapping_clause_type, wrapping_node_kind, is_invocation,
    schema_or_alias_name): (
        Option<NodeUnderCursor>,
        Option<WrappingClause>,
        Option<WrappingNode>,
        bool,
        Option<String>,
    ) = match node {
        Some(i) => {
            let nuc = NodeUnderCursor {
                kind: tree.kind(i),
                text: tree.text(i).clone(),
                start_byte: tree.start_byte(i),
                end_byte: tree.end_byte(i),
                prev_kind: prev_kind_of(tree, i),
            };
            (
                Some(nuc),
                clause_at(tree, i),
                wrapping_node_at(tree, i),
                is_invocation_at(tree, i),
                qualifier_at(tree, i),
            )
        },
        None => (None, None, None, false, None),
    };
    let ctx = CompletionContext {
        schema_cache: cache,
        node_under_cursor,
        wrapping_clause_type,
        wrapping_node_kind,
        is_invocation,
        mentioned_table_aliases: extract_aliases(tree),
        schema_or_alias_name,
    };
    ctx
}

} // verus!
