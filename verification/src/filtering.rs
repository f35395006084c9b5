//! The relevance filter: a pure predicate over a candidate's relevance data
//! and the completion context, evaluated as a chain of independent checks
//! with AND semantics. A check that finds nothing wrong passes the
//! candidate on; the first failing check rejects it.

use vstd::prelude::*;

use crate::context::{CompletionContext, CompletionContextView, TableAlias, TableAliasView, WrappingClause};
use crate::relevance::{CompletionRelevanceData, CompletionRelevanceDataView};
use crate::syntax_tree::NodeKind;
use crate::text::str_eq;

verus! {

/// Whether the node under the cursor admits completion at all: keywords,
/// bare `=`, commas, literals and parse-error nodes are never completion
/// targets, and two adjacent identifiers without a separating token are
/// ambiguous partial input. An absent node admits completion.
pub open spec fn spec_completable(c: CompletionContextView) -> bool {
    match c.node_under_cursor {
        Some(n) => {
            let rejected_kind = n.kind == NodeKind::Keyword || n.kind == NodeKind::Equals
                || n.kind == NodeKind::Comma || n.kind == NodeKind::Literal || n.kind
                == NodeKind::Error;
            let adjacent_idents = n.kind == NodeKind::Identifier && (n.prev_kind == Some(
                NodeKind::Identifier,
            ) || n.prev_kind == Some(NodeKind::ObjectReference));
            !rejected_kind && !adjacent_idents
        },
        None => true,
    }
}

/// Whether the cursor still sits before the `ON` of its wrapping `JOIN`
/// clause: true inside a `JOIN` without an `ON` sub-node, and inside a
/// `JOIN` whose `ON` starts after the node under the cursor ends.
pub open spec fn spec_before_join_on(c: CompletionContextView) -> bool {
    match c.wrapping_clause_type {
        Some(WrappingClause::Join { on_node }) => match on_node {
            None => true,
            Some(on) => match c.node_under_cursor {
                Some(n) => n.end_byte < on,
                None => false,
            },
        },
        _ => false,
    }
}

/// The kind-specific clause check: tables are out of place in `SELECT` and
/// `WHERE` clauses, columns in a bare `FROM` and in the join-target part of
/// a `JOIN`; schemas and functions carry no clause restriction here.
pub open spec fn spec_clause_ok(
    d: CompletionRelevanceDataView,
    c: CompletionContextView,
) -> bool {
    match d {
        CompletionRelevanceDataView::Table(_) => !(c.wrapping_clause_type == Some(
            WrappingClause::Select,
        ) || c.wrapping_clause_type == Some(WrappingClause::Where)),
        CompletionRelevanceDataView::Column(_) => !(c.wrapping_clause_type == Some(
            WrappingClause::From,
        )) && !spec_before_join_on(c),
        _ => true,
    }
}

/// The invocation check: in function-call position only function and
/// schema candidates remain.
pub open spec fn spec_invocation_ok(
    d: CompletionRelevanceDataView,
    c: CompletionContextView,
) -> bool {
    if !c.is_invocation {
        true
    } else {
        match d {
            CompletionRelevanceDataView::Table(_) => false,
            CompletionRelevanceDataView::Column(_) => false,
            _ => true,
        }
    }
}

/// The table the first binding of `q` in the alias list resolves to.
pub open spec fn spec_alias_lookup(aliases: Seq<TableAliasView>, q: Seq<char>) -> Option<
    Seq<char>,
>
    decreases aliases.len(),
{
    if aliases.len() == 0 {
        None
    } else if aliases[0].alias == q {
        Some(aliases[0].table_name)
    } else {
        spec_alias_lookup(aliases.drop_first(), q)
    }
}

/// The qualifier check: an explicit `schema.` or `alias.` before the
/// cursor restricts tables and functions to that schema and columns to the
/// table the alias resolves to, and rules schemas out entirely.
pub open spec fn spec_qualifier_ok(
    d: CompletionRelevanceDataView,
    c: CompletionContextView,
) -> bool {
    match c.schema_or_alias_name {
        None => true,
        Some(q) => match d {
            CompletionRelevanceDataView::Table(t) => t.schema == q,
            CompletionRelevanceDataView::Function(f) => f.schema == q,
            CompletionRelevanceDataView::Column(col) => spec_alias_lookup(
                c.mentioned_table_aliases,
                q,
            ) == Some(col.table_name),
            CompletionRelevanceDataView::Schema(_) => false,
        },
    }
}

/// The whole filter: all four checks must pass.
pub open spec fn spec_is_relevant(
    d: CompletionRelevanceDataView,
    c: CompletionContextView,
) -> bool {
    spec_completable(c) && spec_clause_ok(d, c) && spec_invocation_ok(d, c)
        && spec_qualifier_ok(d, c)
}

/// The table the first binding of `q` in the alias list resolves to,
/// starting the search at entry `i`.
fn alias_table_from<'b>(aliases: &'b Vec<TableAlias>, i: usize, q: &str) -> (r: Option<
    &'b String,
>)
    requires
        i <= aliases@.len(),
    ensures
        (match r {
            Some(s) => Some(s@),
            None => None,
        }) == spec_alias_lookup(
            aliases@.map_values(|a: TableAlias| a@).skip(i as int),
            q@,
        ),
    decreases aliases@.len() - i,
{
    proof {
        let s = aliases@.map_values(|a: TableAlias| a@);
        assert(s.skip(i as int).len() == s.len() - i);
        if i < aliases@.len() {
            assert(s.skip(i as int)[0] == s[i as int]);
            assert(s.skip(i as int).drop_first() =~= s.skip(i as int + 1));
        }
    }
    if i == aliases.len() {
        return None;
    }
    if str_eq(aliases[i].alias.as_str(), q) {
        Some(&aliases[i].table_name)
    } else {
        alias_table_from(aliases, i + 1, q)
    }
}

/// The relevance filter for one candidate, holding the candidate's
/// kind-tagged relevance data.
#[derive(Debug)]
pub struct CompletionFilter {
    pub data: CompletionRelevanceData,
}

impl View for CompletionFilter {
    type V = CompletionRelevanceDataView;

    open spec fn view(&self) -> CompletionRelevanceDataView {
        self.data@
    }
}

impl From<CompletionRelevanceData> for CompletionFilter {
    fn from(value: CompletionRelevanceData) -> (r: Self) {
        CompletionFilter { data: value }
    }
}

impl vstd::std_specs::convert::FromSpecImpl<CompletionRelevanceData> for CompletionFilter {
    open spec fn obeys_from_spec() -> bool {
        true
    }

    open spec fn from_spec(t: CompletionRelevanceData) -> Self {
        CompletionFilter { data: t }
    }
}

impl CompletionFilter {
    /// The whole chain: `Some(())` exactly when every check passes.
    pub fn is_relevant(&self, ctx: &CompletionContext) -> (r: Option<()>)
        ensures
            r is Some <==> spec_is_relevant(self@, ctx@),
    {
        if self.completable_context(ctx).is_none() {
            return None;
        }
        if self.check_clause(ctx).is_none() {
            return None;
        }
        if self.check_invocation(ctx).is_none() {
            return None;
        }
        if self.check_mentioned_schema_or_alias(ctx).is_none() {
            return None;
        }
        Some(())
    }

    /// The completable-context check.
    pub fn completable_context(&self, ctx: &CompletionContext) -> (r: Option<()>)
        ensures
            r is Some <==> spec_completable(ctx@),
    {
        match &ctx.node_under_cursor {
            Some(n) => {
                let rejected_kind = n.kind == NodeKind::Keyword || n.kind == NodeKind::Equals
                    || n.kind == NodeKind::Comma || n.kind == NodeKind::Literal || n.kind
                    == NodeKind::Error;
                if rejected_kind {
                    return None;
                }
                let adjacent_idents = n.kind == NodeKind::Identifier && (n.prev_kind == Some(
                    NodeKind::Identifier,
                ) || n.prev_kind == Some(NodeKind::ObjectReference));
                if adjacent_idents {
                    return None;
                }
                Some(())
            },
            None => Some(()),
        }
    }

    /// The kind-specific clause check.
    pub fn check_clause(&self, ctx: &CompletionContext) -> (r: Option<()>)
        ensures
            r is Some <==> spec_clause_ok(self@, ctx@),
    {
        match &self.data {
            CompletionRelevanceData::Table(_) => {
                let in_select = ctx.wrapping_clause_type == Some(WrappingClause::Select);
                let in_where = ctx.wrapping_clause_type == Some(WrappingClause::Where);
                if in_select || in_where {
                    return None;
                }
                Some(())
            },
            CompletionRelevanceData::Column(_) => {
                if ctx.wrapping_clause_type == Some(WrappingClause::From) {
                    return None;
                }
                let before_on = match ctx.wrapping_clause_type {
                    Some(WrappingClause::Join { on_node }) => match on_node {
                        None => true,
                        Some(on) => match &ctx.node_under_cursor {
                            Some(n) => n.end_byte < on,
                            None => false,
                        },
                    },
                    _ => false,
                };
                if before_on {
                    return None;
                }
                Some(())
            },
            _ => Some(()),
        }
    }

    /// The invocation check.
    pub fn check_invocation(&self, ctx: &CompletionContext) -> (r: Option<()>)
        ensures
            r is Some <==> spec_invocation_ok(self@, ctx@),
    {
        if !ctx.is_invocation {
            return Some(());
        }
        match &self.data {
            CompletionRelevanceData::Table(_) => None,
            CompletionRelevanceData::Column(_) => None,
            _ => Some(()),
        }
    }

    /// The qualifier check.
    pub fn check_mentioned_schema_or_alias(&self, ctx: &CompletionContext) -> (r: Option<()>)
        ensures
            r is Some <==> spec_qualifier_ok(self@, ctx@),
    {
        let q = match &ctx.schema_or_alias_name {
            None => {
                return Some(());
            },
            Some(q) => q,
        };
        let ok = match &self.data {
            CompletionRelevanceData::Table(t) => str_eq(t.schema.as_str(), q.as_str()),
            CompletionRelevanceData::Function(f) => str_eq(f.schema.as_str(), q.as_str()),
            CompletionRelevanceData::Column(col) => {
                proof {
                    let s = ctx.mentioned_table_aliases@.map_values(|a: TableAlias| a@);
                    assert(s.skip(0) =~= s);
                }
                match alias_table_from(&ctx.mentioned_table_aliases, 0, q.as_str()) {
                    Some(tb) => str_eq(tb.as_str(), col.table_name.as_str()),
                    None => false,
                }
            },
            CompletionRelevanceData::Schema(_) => false,
        };
        if ok {
            Some(())
        } else {
            None
        }
    }
}

} // verus!
