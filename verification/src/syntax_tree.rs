//! Arena model of the concrete syntax tree that the parser hands to a
//! completion request.
//!
//! The whole tree is owned by the request; a node is referenced by its arena
//! index. Nodes are stored in pre-order, so every structural link of a node
//! points as the well-formedness predicate [`SyntaxTree::wf`] demands: parent
//! and previous sibling strictly before the node, next sibling and first
//! child strictly after it. Every walk along those links therefore
//! terminates.

use vstd::prelude::*;

verus! {

/// The classification of a syntax node, as the grammar tags it.
///
/// `Keyword` stands for every keyword token; the clause kinds (`Select`,
/// `From`, `Where`, `Join`, `Update`, `Delete`, `Set`) tag the clause nodes
/// that own such a keyword, not the keyword token itself. `Error` tags the
/// recovery nodes a parser produces for malformed input, the common case
/// while the user is mid-typing.
#[derive(Clone, Copy, Debug, PartialEq, Eq, Structural)]
pub enum NodeKind {
    Program,
    Statement,
    Select,
    From,
    Where,
    Join,
    Update,
    Delete,
    SetClause,
    On,
    Relation,
    ObjectReference,
    Identifier,
    Keyword,
    Literal,
    Error,
    Equals,
    Comma,
    Dot,
    OpenParen,
    BinaryExpression,
    Other,
}

/// Mathematical image of a [`NodeData`]: the token text as a character
/// sequence, everything else unchanged.
pub ghost struct NodeDataView {
    pub kind: NodeKind,
    pub start: int,
    pub end: int,
    pub parent: Option<int>,
    pub prev_sibling: Option<int>,
    pub next_sibling: Option<int>,
    pub first_child: Option<int>,
    pub text: Seq<char>,
}

/// One node of the arena: its kind, byte range, structural links and, for
/// leaf tokens, the text it covers.
pub struct NodeData {
    pub kind: NodeKind,
    pub start: usize,
    pub end: usize,
    pub parent: Option<usize>,
    pub prev_sibling: Option<usize>,
    pub next_sibling: Option<usize>,
    pub first_child: Option<usize>,
    pub text: String,
}

impl View for NodeData {
    type V = NodeDataView;

    open spec fn view(&self) -> NodeDataView {
        NodeDataView {
            kind: self.kind,
            start: self.start as int,
            end: self.end as int,
            parent: match self.parent {
                Some(p) => Some(p as int),
                None => None,
            },
            prev_sibling: match self.prev_sibling {
                Some(p) => Some(p as int),
                None => None,
            },
            next_sibling: match self.next_sibling {
                Some(p) => Some(p as int),
                None => None,
            },
            first_child: match self.first_child {
                Some(p) => Some(p as int),
                None => None,
            },
            text: self.text@,
        }
    }
}

/// The concrete syntax tree of one statement, as an arena of nodes in
/// pre-order. Node 0, where one exists, is the root.
pub struct SyntaxTree {
    pub nodes: Vec<NodeData>,
}

impl SyntaxTree {
    /// The node at arena index `i`, as a spec value.
    pub open spec fn spec_node(self, i: int) -> NodeData {
        self.nodes@[i]
    }

    /// The number of nodes.
    pub open spec fn spec_len(self) -> int {
        self.nodes@.len() as int
    }

    /// Well-formedness: every structural link stays inside the arena, and
    /// points backwards (parent, previous sibling) or forwards (next
    /// sibling, first child) as pre-order storage demands, so that link
    /// walks terminate.
    pub open spec fn wf(self) -> bool {
        forall|i: int|
            0 <= i < self.spec_len() ==> {
                &&& (#[trigger] self.spec_node(i)).parent matches Some(p) ==> 0 <= p < i
                &&& self.spec_node(i).prev_sibling matches Some(p) ==> 0 <= p < i
                &&& self.spec_node(i).next_sibling matches Some(n) ==> i < n < self.spec_len()
                &&& self.spec_node(i).first_child matches Some(c) ==> i < c < self.spec_len()
                &&& self.spec_node(i).start <= self.spec_node(i).end
            }
    }

    /// How many nodes the arena holds.
    pub fn len(&self) -> (n: usize)
        ensures
            n == self.spec_len(),
    {
        self.nodes.len()
    }

    /// The kind of node `i`.
    pub fn kind(&self, i: usize) -> (k: NodeKind)
        requires
            i < self.spec_len(),
        ensures
            k == self.spec_node(i as int).kind,
    {
        self.nodes[i].kind
    }

    /// The first byte of node `i`'s range.
    pub fn start_byte(&self, i: usize) -> (b: usize)
        requires
            i < self.spec_len(),
        ensures
            b == self.spec_node(i as int).start,
    {
        self.nodes[i].start
    }

    /// The byte just past node `i`'s range.
    pub fn end_byte(&self, i: usize) -> (b: usize)
        requires
            i < self.spec_len(),
        ensures
            b == self.spec_node(i as int).end,
    {
        self.nodes[i].end
    }

    /// The parent of node `i`, where one exists.
    pub fn parent(&self, i: usize) -> (p: Option<usize>)
        requires
            i < self.spec_len(),
        ensures
            p == self.spec_node(i as int).parent,
    {
        self.nodes[i].parent
    }

    /// The sibling just before node `i`, where one exists.
    pub fn prev_sibling(&self, i: usize) -> (p: Option<usize>)
        requires
            i < self.spec_len(),
        ensures
            p == self.spec_node(i as int).prev_sibling,
    {
        self.nodes[i].prev_sibling
    }

    /// The sibling just after node `i`, where one exists.
    pub fn next_sibling(&self, i: usize) -> (p: Option<usize>)
        requires
            i < self.spec_len(),
        ensures
            p == self.spec_node(i as int).next_sibling,
    {
        self.nodes[i].next_sibling
    }

    /// The first child of node `i`, where one exists.
    pub fn first_child(&self, i: usize) -> (p: Option<usize>)
        requires
            i < self.spec_len(),
        ensures
            p == self.spec_node(i as int).first_child,
    {
        self.nodes[i].first_child
    }

    /// The token text of node `i`.
    pub fn text(&self, i: usize) -> (t: &String)
        requires
            i < self.spec_len(),
        ensures
            t@ == self.spec_node(i as int).text@,
    {
        &self.nodes[i].text
    }
}

/// An optional arena index, widened to the mathematical integers.
pub open spec fn opt_as_int(o: Option<usize>) -> Option<int> {
    match o {
        Some(i) => Some(i as int),
        None => None,
    }
}

/// Whether node `i`'s byte range contains offset `off`, the end byte
/// included: a cursor sitting right after the last byte of a token still
/// belongs to that token.
pub open spec fn spec_contains_offset(t: SyntaxTree, i: int, off: int) -> bool {
    t.spec_node(i).start <= off <= t.spec_node(i).end
}

/// The first node of the sibling chain starting at `c` whose range contains
/// `off`, or `None` where no sibling does.
pub open spec fn spec_child_containing(t: SyntaxTree, c: int, off: int) -> Option<int>
    decreases t.spec_len() - c,
{
    if !(0 <= c < t.spec_len()) {
        None
    } else if spec_contains_offset(t, c, off) {
        Some(c)
    } else {
        match t.spec_node(c).next_sibling {
            Some(n) => if c < n < t.spec_len() {
                spec_child_containing(t, n as int, off)
            } else {
                None
            },
            None => None,
        }
    }
}

/// Descent from node `cur`, whose range contains `off`: while some child's
/// range contains the offset, the search moves into the first such child.
pub open spec fn spec_descend(t: SyntaxTree, cur: int, off: int) -> int
    decreases t.spec_len() - cur,
{
    if !(0 <= cur < t.spec_len()) {
        cur
    } else {
        match t.spec_node(cur).first_child {
            Some(fc) => if cur < fc < t.spec_len() {
                match spec_child_containing(t, fc as int, off) {
                    Some(c) => if cur < c < t.spec_len() {
                        spec_descend(t, c, off)
                    } else {
                        cur
                    },
                    None => cur,
                }
            } else {
                cur
            },
            None => cur,
        }
    }
}

/// The node under the cursor: the deepest node whose byte range contains the
/// offset, the first such child preferred at every level, so that at a
/// boundary between two tokens the earlier token wins (the cursor trails
/// it). `None` where the tree is empty or the offset lies outside the root.
pub open spec fn spec_node_at(t: SyntaxTree, off: int) -> Option<int> {
    if t.spec_len() == 0 || !spec_contains_offset(t, 0, off) {
        None
    } else {
        Some(spec_descend(t, 0, off))
    }
}

impl SyntaxTree {
    /// The first node of the sibling chain starting at `c` whose byte range
    /// contains `off`.
    fn child_containing(&self, c: usize, off: usize) -> (r: Option<usize>)
        requires
            self.wf(),
            c < self.spec_len(),
        ensures
            opt_as_int(r) == spec_child_containing(*self, c as int, off as int),
            r matches Some(i) ==> c <= i < self.spec_len(),
    {
        let mut cur: usize = c;
        loop
            invariant
                self.wf(),
                c <= cur < self.spec_len(),
                spec_child_containing(*self, cur as int, off as int) == spec_child_containing(
                    *self,
                    c as int,
                    off as int,
                ),
            decreases self.spec_len() - cur,
        {
            if self.nodes[cur].start <= off && off <= self.nodes[cur].end {
                return Some(cur);
            }
            match self.nodes[cur].next_sibling {
                Some(n) => {
                    cur = n;
                },
                None => {
                    return None;
                },
            }
        }
    }

    /// The smallest node whose byte range contains (or, for a trailing
    /// cursor, ends exactly at) the given offset; `None` where the tree is
    /// empty or the offset lies outside it.
    pub fn node_at_offset(&self, off: usize) -> (r: Option<usize>)
        requires
            self.wf(),
        ensures
            opt_as_int(r) == spec_node_at(*self, off as int),
            r matches Some(i) ==> i < self.spec_len(),
    {
        if self.nodes.len() == 0 {
            return None;
        }
        if !(self.nodes[0].start <= off && off <= self.nodes[0].end) {
            return None;
        }
        let mut cur: usize = 0;
        loop
            invariant
                self.wf(),
                self.spec_len() > 0,
                spec_contains_offset(*self, 0, off as int),
                cur < self.spec_len(),
                spec_descend(*self, cur as int, off as int) == spec_descend(*self, 0, off as int),
            decreases self.spec_len() - cur,
        {
            let fc = match self.nodes[cur].first_child {
                Some(fc) => fc,
                None => {
                    return Some(cur);
                },
            };
            match self.child_containing(fc, off) {
                Some(c2) => {
                    cur = c2;
                },
                None => {
                    return Some(cur);
                },
            }
        }
    }
}

} // verus!
