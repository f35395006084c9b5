//! The relevance scorer: a pure function from a candidate's relevance data
//! and the context to an ordering key. It never excludes a candidate; it
//! only ranks the survivors of the filter. The baseline order is
//! lexicographic by label; the boosts below stack on top of it.

use vstd::prelude::*;

use crate::context::{CompletionContext, CompletionContextView, TableAlias, TableAliasView, WrappingClause};
use crate::relevance::{CompletionRelevanceData, CompletionRelevanceDataView};
use crate::syntax_tree::NodeKind;
use crate::text::{spec_is_prefix, str_eq, str_is_prefix};

verus! {

/// Boost for a label that continues the partial identifier under the
/// cursor.
pub const PREFIX_MATCH_BOOST: u32 = 30;

/// Boost for a schema candidate at a table position (`FROM`, `JOIN`,
/// `UPDATE`, `DELETE` target), where a qualifier may usefully be typed.
pub const SCHEMA_AFFINITY_BOOST: u32 = 20;

/// Boost for a table candidate at a table position.
pub const TABLE_AFFINITY_BOOST: u32 = 10;

/// Boost for a column candidate at an expression position (`SELECT`,
/// `WHERE`, the part of a `JOIN` after its `ON`, or an unclassified
/// clause such as an `UPDATE`'s `SET` list).
pub const COLUMN_AFFINITY_BOOST: u32 = 10;

/// Boost for a function candidate at an expression position.
pub const FUNCTION_AFFINITY_BOOST: u32 = 5;

/// Boost for a function candidate in function-call position.
pub const FUNCTION_INVOCATION_BOOST: u32 = 10;

/// Boost for the session's default schema.
pub const DEFAULT_SCHEMA_BOOST: u32 = 5;

/// Boost for a column whose table the statement already mentions through
/// an alias, so that the columns of joined tables rank above unrelated
/// ones.
pub const MENTIONED_TABLE_BOOST: u32 = 20;

/// The partial identifier the user has typed under the cursor, where one
/// exists.
pub open spec fn spec_typed_prefix(c: CompletionContextView) -> Option<Seq<char>> {
    match c.node_under_cursor {
        Some(n) => if n.kind == NodeKind::Identifier && n.text.len() > 0 {
            Some(n.text)
        } else {
            None
        },
        None => None,
    }
}

/// The prefix-match boost of a label.
pub open spec fn spec_prefix_bonus(label: Seq<char>, c: CompletionContextView) -> int {
    match spec_typed_prefix(c) {
        Some(p) => if spec_is_prefix(p, label) {
            PREFIX_MATCH_BOOST as int
        } else {
            0
        },
        None => 0,
    }
}

/// Whether the wrapping clause expects a table (or a schema qualifying
/// one): `FROM`, `JOIN`, `UPDATE` or `DELETE` target position.
pub open spec fn spec_table_position(c: CompletionContextView) -> bool {
    match c.wrapping_clause_type {
        Some(cl) => match cl {
            WrappingClause::From => true,
            WrappingClause::Join { .. } => true,
            WrappingClause::Update => true,
            WrappingClause::Delete => true,
            _ => false,
        },
        None => false,
    }
}

/// Whether the wrapping clause expects an expression, so a column:
/// `SELECT`, `WHERE`, the part of a `JOIN` after its `ON`, or an
/// unclassified clause.
pub open spec fn spec_expression_position(c: CompletionContextView) -> bool {
    match c.wrapping_clause_type {
        Some(cl) => match cl {
            WrappingClause::Select => true,
            WrappingClause::Where => true,
            WrappingClause::Other => true,
            WrappingClause::Join { on_node } => match (on_node, c.node_under_cursor) {
                (Some(on), Some(n)) => n.end_byte >= on,
                _ => false,
            },
            _ => false,
        },
        None => false,
    }
}

/// Whether the statement mentions the table through some alias.
pub open spec fn spec_table_mentioned(aliases: Seq<TableAliasView>, name: Seq<char>) -> bool {
    exists|k: int| 0 <= k < aliases.len() && aliases[k].table_name == name
}

/// The ordering key of one candidate: its boosts summed. Ties resolve
/// lexicographically by label downstream, never here.
pub open spec fn spec_score(
    d: CompletionRelevanceDataView,
    c: CompletionContextView,
) -> int {
    match d {
        CompletionRelevanceDataView::Table(t) => spec_prefix_bonus(t.name, c) + (
        if spec_table_position(c) {
            TABLE_AFFINITY_BOOST as int
        } else {
            0
        }),
        CompletionRelevanceDataView::Column(col) => spec_prefix_bonus(col.name, c) + (
        if spec_expression_position(c) {
            COLUMN_AFFINITY_BOOST as int
        } else {
            0
        }) + (if spec_table_mentioned(c.mentioned_table_aliases, col.table_name) {
            MENTIONED_TABLE_BOOST as int
        } else {
            0
        }),
        CompletionRelevanceDataView::Function(f) => spec_prefix_bonus(f.name, c) + (
        if c.is_invocation {
            FUNCTION_INVOCATION_BOOST as int
        } else if c.wrapping_clause_type == Some(WrappingClause::Select)
            || c.wrapping_clause_type == Some(WrappingClause::Where) {
            FUNCTION_AFFINITY_BOOST as int
        } else {
            0
        }),
        CompletionRelevanceDataView::Schema(s) => spec_prefix_bonus(s.name, c) + (
        if spec_table_position(c) {
            SCHEMA_AFFINITY_BOOST as int
        } else {
            0
        }) + (if s.name == "public"@ {
            DEFAULT_SCHEMA_BOOST as int
        } else {
            0
        }),
    }
}

/// The prefix-match boost of a label.
fn prefix_bonus(label: &str, ctx: &CompletionContext) -> (b: u32)
    ensures
        b == spec_prefix_bonus(label@, ctx@),
{
    match &ctx.node_under_cursor {
        Some(n) => {
            if n.kind == NodeKind::Identifier && n.text.as_str().unicode_len() > 0 {
                if str_is_prefix(n.text.as_str(), label) {
                    PREFIX_MATCH_BOOST
                } else {
                    0
                }
            } else {
                0
            }
        },
        None => 0,
    }
}

/// Whether the wrapping clause expects a table.
fn table_position(ctx: &CompletionContext) -> (r: bool)
    ensures
        r == spec_table_position(ctx@),
{
    match ctx.wrapping_clause_type {
        Some(cl) => match cl {
            WrappingClause::From => true,
            WrappingClause::Join { .. } => true,
            WrappingClause::Update => true,
            WrappingClause::Delete => true,
            _ => false,
        },
        None => false,
    }
}

/// Whether the wrapping clause expects an expression.
fn expression_position(ctx: &CompletionContext) -> (r: bool)
    ensures
        r == spec_expression_position(ctx@),
{
    match ctx.wrapping_clause_type {
        Some(cl) => match cl {
            WrappingClause::Select => true,
            WrappingClause::Where => true,
            WrappingClause::Other => true,
            WrappingClause::Join { on_node } => match (on_node, &ctx.node_under_cursor) {
                (Some(on), Some(n)) => n.end_byte >= on,
                _ => false,
            },
            _ => false,
        },
        None => false,
    }
}

/// Whether the statement mentions the table through some alias.
fn table_mentioned(aliases: &Vec<TableAlias>, name: &str) -> (r: bool)
    ensures
        r == spec_table_mentioned(aliases@.map_values(|a: TableAlias| a@), name@),
{
    let ghost s = aliases@.map_values(|a: TableAlias| a@);
    let mut i: usize = 0;
    while i < aliases.len()
        invariant
            s == aliases@.map_values(|a: TableAlias| a@),
            i <= aliases@.len(),
            forall|j: int| 0 <= j < i ==> s[j].table_name != name@,
        decreases aliases@.len() - i,
    {
        if str_eq(aliases[i].table_name.as_str(), name) {
            proof {
                assert(s[i as int].table_name == name@);
            }
            return true;
        }
        i += 1;
    }
    false
}

/// The relevance scorer for one candidate, holding the candidate's
/// kind-tagged relevance data.
#[derive(Debug)]
pub struct CompletionScore {
    pub data: CompletionRelevanceData,
}

impl View for CompletionScore {
    type V = CompletionRelevanceDataView;

    open spec fn view(&self) -> CompletionRelevanceDataView {
        self.data@
    }
}

impl From<CompletionRelevanceData> for CompletionScore {
    fn from(value: CompletionRelevanceData) -> (r: Self) {
        CompletionScore { data: value }
    }
}

impl vstd::std_specs::convert::FromSpecImpl<CompletionRelevanceData> for CompletionScore {
    open spec fn obeys_from_spec() -> bool {
        true
    }

    open spec fn from_spec(t: CompletionRelevanceData) -> Self {
        CompletionScore { data: t }
    }
}

impl CompletionScore {
    /// The ordering key of this candidate under the given context.
    pub fn get_score(&self, ctx: &CompletionContext) -> (s: u32)
        ensures
            s == spec_score(self@, ctx@),
    {
        match &self.data {
            CompletionRelevanceData::Table(t) => {
                let mut s = prefix_bonus(t.name.as_str(), ctx);
                if table_position(ctx) {
                    s = s + TABLE_AFFINITY_BOOST;
                }
                s
            },
            CompletionRelevanceData::Column(col) => {
                let mut s = prefix_bonus(col.name.as_str(), ctx);
                if expression_position(ctx) {
                    s = s + COLUMN_AFFINITY_BOOST;
                }
                if table_mentioned(&ctx.mentioned_table_aliases, col.table_name.as_str()) {
                    s = s + MENTIONED_TABLE_BOOST;
                }
                s
            },
            CompletionRelevanceData::Function(f) => {
                let mut s = prefix_bonus(f.name.as_str(), ctx);
                if ctx.is_invocation {
                    s = s + FUNCTION_INVOCATION_BOOST;
                } else if ctx.wrapping_clause_type == Some(WrappingClause::Select)
                    || ctx.wrapping_clause_type == Some(WrappingClause::Where) {
                    s = s + FUNCTION_AFFINITY_BOOST;
                }
                s
            },
            CompletionRelevanceData::Schema(sch) => {
                let mut s = prefix_bonus(sch.name.as_str(), ctx);
                if table_position(ctx) {
                    s = s + SCHEMA_AFFINITY_BOOST;
                }
                if str_eq(sch.name.as_str(), "public") {
                    s = s + DEFAULT_SCHEMA_BOOST;
                }
                s
            },
        }
    }
}

} // verus!
