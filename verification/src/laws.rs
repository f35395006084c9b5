//! The library's stated guarantees, proved over the functional
//! specification [`spec_complete`] that [`crate::builder::complete`]'s
//! contract pins its result to.

use vstd::prelude::*;

use crate::builder::{
    spec_assemble, spec_complete, spec_item_of, spec_ordered, spec_precedes, spec_sorted_insert,
    PossibleCompletionItemView,
};
use crate::item::CompletionItemView;
use crate::context::{spec_context, CompletionContextView, WrappingClause};
use crate::filtering::{spec_before_join_on, spec_is_relevant};
use crate::item::CompletionItemKind;
use crate::providers::spec_candidates;
use crate::relevance::CompletionRelevanceDataView;
use crate::schema_cache::SchemaCacheView;
use crate::syntax_tree::SyntaxTree;

verus! {

/// Whatever a sorted insertion yields was the inserted element or was
/// already present.
proof fn lemma_sorted_insert_elems(
    s: Seq<CompletionItemView>,
    x: CompletionItemView,
    y: CompletionItemView,
)
    requires
        spec_sorted_insert(s, x).contains(y),
    ensures
        y == x || s.contains(y),
    decreases s.len(),
{
    if s.len() == 0 {
        assert(spec_sorted_insert(s, x) =~= seq![x]);
    } else if spec_precedes(x, s[0]) {
        let r = seq![x] + s;
        let i = choose|i: int| 0 <= i < r.len() && r[i] == y;
        if i == 0 {
        } else {
            assert(s[i - 1] == y);
        }
    } else {
        let d = s.drop_first();
        let r = seq![s[0]] + spec_sorted_insert(d, x);
        assert(spec_sorted_insert(s, x) == r);
        let i = choose|i: int| 0 <= i < r.len() && r[i] == y;
        if i == 0 {
            assert(s[0] == y);
        } else {
            assert(spec_sorted_insert(d, x)[i - 1] == y);
            assert(spec_sorted_insert(d, x).contains(y));
            lemma_sorted_insert_elems(d, x, y);
            if d.contains(y) {
                let k = choose|k: int| 0 <= k < d.len() && d[k] == y;
                assert(s[k + 1] == y);
            }
        }
    }
}

/// The ranking order is transitive.
proof fn lemma_precedes_transitive(
    a: CompletionItemView,
    b: CompletionItemView,
    c: CompletionItemView,
)
    requires
        spec_precedes(a, b),
        spec_precedes(b, c),
    ensures
        spec_precedes(a, c),
{
    if a.score == b.score && b.score == c.score {
        crate::text::lemma_lex_lt_transitive(a.label, b.label, c.label);
    }
}

/// The ranking order is asymmetric.
proof fn lemma_precedes_asymmetric(a: CompletionItemView, b: CompletionItemView)
    requires
        spec_precedes(a, b),
    ensures
        !spec_precedes(b, a),
{
    if a.score == b.score && spec_precedes(b, a) {
        crate::text::lemma_lex_lt_transitive(a.label, b.label, a.label);
        crate::text::lemma_lex_lt_irreflexive(a.label);
    }
}

/// A stable sorted insertion into an ordered sequence yields an ordered
/// sequence.
proof fn lemma_sorted_insert_ordered(s: Seq<CompletionItemView>, x: CompletionItemView)
    requires
        spec_ordered(s),
    ensures
        spec_ordered(spec_sorted_insert(s, x)),
    decreases s.len(),
{
    if s.len() == 0 {
        assert(spec_ordered(spec_sorted_insert(s, x)));
    } else if spec_precedes(x, s[0]) {
        let r = seq![x] + s;
        assert forall|p: int, q: int| 0 <= p < q < r.len() implies !spec_precedes(r[q], r[p]) by {
            if p == 0 {
                let y = s[q - 1];
                assert(r[q] == y);
                if spec_precedes(y, x) {
                    lemma_precedes_transitive(y, x, s[0]);
                    if q - 1 == 0 {
                        lemma_precedes_asymmetric(x, s[0]);
                    }
                }
            } else {
                assert(r[p] == s[p - 1] && r[q] == s[q - 1]);
            }
        }
    } else {
        let d = s.drop_first();
        assert forall|p: int, q: int| 0 <= p < q < d.len() implies !spec_precedes(d[q], d[p]) by {
            assert(d[p] == s[p + 1] && d[q] == s[q + 1]);
        }
        lemma_sorted_insert_ordered(d, x);
        let ins = spec_sorted_insert(d, x);
        let r = seq![s[0]] + ins;
        assert(spec_sorted_insert(s, x) == r);
        assert forall|p: int, q: int| 0 <= p < q < r.len() implies !spec_precedes(r[q], r[p]) by {
            if p == 0 {
                assert(r[q] == ins[q - 1]);
                assert(ins.contains(ins[q - 1]));
                lemma_sorted_insert_elems(d, x, ins[q - 1]);
                if ins[q - 1] == x {
                    assert(!spec_precedes(x, s[0]));
                } else {
                    let k = choose|k: int| 0 <= k < d.len() && d[k] == ins[q - 1];
                    assert(d[k] == s[k + 1]);
                }
            } else {
                assert(r[p] == ins[p - 1] && r[q] == ins[q - 1]);
            }
        }
    }
}

/// An assembled result is ordered.
proof fn lemma_assemble_ordered(
    cands: Seq<PossibleCompletionItemView>,
    ctx: CompletionContextView,
)
    ensures
        spec_ordered(spec_assemble(cands, ctx)),
    decreases cands.len(),
{
    if cands.len() == 0 {
        assert(spec_ordered(spec_assemble(cands, ctx)));
    } else {
        lemma_assemble_ordered(cands.drop_last(), ctx);
        if spec_is_relevant(cands.last().filter, ctx) {
            lemma_sorted_insert_ordered(
                spec_assemble(cands.drop_last(), ctx),
                spec_item_of(cands.last(), ctx),
            );
        }
    }
}

/// Ranking: the completion list is ordered by descending score, ties
/// resolved lexicographically by label — no item that must precede
/// another follows it.
pub proof fn lemma_complete_ordered(t: SyntaxTree, cache: SchemaCacheView, off: int)
    ensures
        spec_ordered(spec_complete(t, cache, off)),
{
    let ctx = spec_context(t, cache, off);
    lemma_assemble_ordered(spec_candidates(ctx), ctx);
}

/// Every element of an assembled result arises from a relevant candidate.
proof fn lemma_assemble_elems(
    cands: Seq<PossibleCompletionItemView>,
    ctx: CompletionContextView,
    y: CompletionItemView,
)
    requires
        spec_assemble(cands, ctx).contains(y),
    ensures
        exists|i: int|
            0 <= i < cands.len() && spec_is_relevant(#[trigger] cands[i].filter, ctx) && y
                == spec_item_of(cands[i], ctx),
    decreases cands.len(),
{
    assert(cands.len() > 0);
    let rest = spec_assemble(cands.drop_last(), ctx);
    if spec_is_relevant(cands.last().filter, ctx) {
        lemma_sorted_insert_elems(rest, spec_item_of(cands.last(), ctx), y);
        if y == spec_item_of(cands.last(), ctx) {
            assert(cands[cands.len() - 1].filter == cands.last().filter);
        } else {
            lemma_assemble_elems(cands.drop_last(), ctx, y);
            let i = choose|i: int|
                0 <= i < cands.drop_last().len() && spec_is_relevant(
                    #[trigger] cands.drop_last()[i].filter,
                    ctx,
                ) && y == spec_item_of(cands.drop_last()[i], ctx);
            assert(cands.drop_last()[i] == cands[i]);
        }
    } else {
        lemma_assemble_elems(cands.drop_last(), ctx, y);
        let i = choose|i: int|
            0 <= i < cands.drop_last().len() && spec_is_relevant(
                #[trigger] cands.drop_last()[i].filter,
                ctx,
            ) && y == spec_item_of(cands.drop_last()[i], ctx);
        assert(cands.drop_last()[i] == cands[i]);
    }
}

/// A sorted insertion keeps the inserted element and everything already
/// present.
proof fn lemma_sorted_insert_keeps(
    s: Seq<CompletionItemView>,
    x: CompletionItemView,
    y: CompletionItemView,
)
    requires
        y == x || s.contains(y),
    ensures
        spec_sorted_insert(s, x).contains(y),
    decreases s.len(),
{
    if s.len() == 0 {
        assert(spec_sorted_insert(s, x)[0] == y);
    } else if spec_precedes(x, s[0]) {
        let r = seq![x] + s;
        if y == x {
            assert(r[0] == y);
        } else {
            let k = choose|k: int| 0 <= k < s.len() && s[k] == y;
            assert(r[k + 1] == y);
        }
    } else {
        let d = s.drop_first();
        let r = seq![s[0]] + spec_sorted_insert(d, x);
        assert(spec_sorted_insert(s, x) == r);
        if y == s[0] {
            assert(r[0] == y);
        } else {
            if y != x {
                let k = choose|k: int| 0 <= k < s.len() && s[k] == y;
                assert(d[k - 1] == y);
                assert(d.contains(y));
            }
            lemma_sorted_insert_keeps(d, x, y);
            let k = choose|k: int|
                0 <= k < spec_sorted_insert(d, x).len() && spec_sorted_insert(d, x)[k] == y;
            assert(r[k + 1] == y);
        }
    }
}

/// Every relevant candidate's item stands in the assembled result.
proof fn lemma_assemble_keeps(
    cands: Seq<PossibleCompletionItemView>,
    ctx: CompletionContextView,
    i: int,
)
    requires
        0 <= i < cands.len(),
        spec_is_relevant(cands[i].filter, ctx),
    ensures
        spec_assemble(cands, ctx).contains(spec_item_of(cands[i], ctx)),
    decreases cands.len(),
{
    let rest = spec_assemble(cands.drop_last(), ctx);
    if i == cands.len() - 1 {
        assert(cands.last() == cands[i]);
        lemma_sorted_insert_keeps(rest, spec_item_of(cands[i], ctx), spec_item_of(cands[i], ctx));
    } else {
        assert(cands.drop_last()[i] == cands[i]);
        lemma_assemble_keeps(cands.drop_last(), ctx, i);
        if spec_is_relevant(cands.last().filter, ctx) {
            lemma_sorted_insert_keeps(
                rest,
                spec_item_of(cands.last(), ctx),
                spec_item_of(cands[i], ctx),
            );
        }
    }
}

/// Filter completeness: the providers are exhaustive and the builder
/// drops nothing the filter admits, so the item of every relevant
/// candidate stands in the completion list.
pub proof fn lemma_complete_keeps_relevant(
    t: SyntaxTree,
    cache: SchemaCacheView,
    off: int,
    i: int,
)
    requires
        0 <= i < spec_candidates(spec_context(t, cache, off)).len(),
        spec_is_relevant(
            spec_candidates(spec_context(t, cache, off))[i].filter,
            spec_context(t, cache, off),
        ),
    ensures
        spec_complete(t, cache, off).contains(
            spec_item_of(
                spec_candidates(spec_context(t, cache, off))[i],
                spec_context(t, cache, off),
            ),
        ),
{
    let ctx = spec_context(t, cache, off);
    lemma_assemble_keeps(spec_candidates(ctx), ctx, i);
}

/// The candidate at index `i`, unfolded to the provider segment it falls
/// in.
proof fn lemma_candidate_at(ctx: CompletionContextView, i: int)
    requires
        0 <= i < spec_candidates(ctx).len(),
    ensures
        ({
            let tn = ctx.cache.tables.len() as int;
            let cn = ctx.cache.columns.len() as int;
            let sn = ctx.cache.schemas.len() as int;
            let fnn = ctx.cache.functions.len() as int;
            &&& spec_candidates(ctx).len() == tn + cn + sn + fnn
            &&& (i < tn ==> spec_candidates(ctx)[i] == crate::providers::spec_table_item(
                ctx,
                ctx.cache.tables[i],
            ))
            &&& (tn <= i < tn + cn ==> spec_candidates(ctx)[i]
                == crate::providers::spec_column_item(ctx, ctx.cache.columns[i - tn]))
            &&& (tn + cn <= i < tn + cn + sn ==> spec_candidates(ctx)[i]
                == crate::providers::spec_schema_item(ctx, ctx.cache.schemas[i - tn - cn]))
            &&& (tn + cn + sn <= i ==> spec_candidates(ctx)[i]
                == crate::providers::spec_function_item(
                ctx,
                ctx.cache.functions[i - tn - cn - sn],
            ))
        }),
{
}

/// Determinism: the completion list is a function of the tree, the
/// snapshot and the cursor offset alone, so two results computed from the
/// same inputs agree element for element.
pub proof fn lemma_complete_deterministic(
    t: SyntaxTree,
    cache: SchemaCacheView,
    off: int,
    r1: Seq<CompletionItemView>,
    r2: Seq<CompletionItemView>,
)
    requires
        r1 == spec_complete(t, cache, off),
        r2 == spec_complete(t, cache, off),
    ensures
        r1 == r2,
{
}

/// Filter soundness for tables: under a `SELECT` or `WHERE` wrapping
/// clause no table candidate survives into the result.
pub proof fn lemma_no_tables_in_select_or_where(
    t: SyntaxTree,
    cache: SchemaCacheView,
    off: int,
    y: CompletionItemView,
)
    requires
        spec_context(t, cache, off).wrapping_clause_type == Some(WrappingClause::Select)
            || spec_context(t, cache, off).wrapping_clause_type == Some(WrappingClause::Where),
        spec_complete(t, cache, off).contains(y),
    ensures
        y.kind != CompletionItemKind::Table,
{
    let ctx = spec_context(t, cache, off);
    lemma_assemble_elems(spec_candidates(ctx), ctx, y);
    let i = choose|i: int|
        0 <= i < spec_candidates(ctx).len() && spec_is_relevant(
            #[trigger] spec_candidates(ctx)[i].filter,
            ctx,
        ) && y == spec_item_of(spec_candidates(ctx)[i], ctx);
    lemma_candidate_at(ctx, i);
    if y.kind == CompletionItemKind::Table {
        assert(spec_candidates(ctx)[i].filter matches CompletionRelevanceDataView::Table(_));
        assert(!spec_is_relevant(spec_candidates(ctx)[i].filter, ctx));
    }
}

/// Filter soundness for columns in joins: while the cursor still sits in
/// the join-target part of a `JOIN` clause (no `ON` sub-node yet, or the
/// node under the cursor ends before the `ON` starts), no column
/// candidate survives into the result.
pub proof fn lemma_no_columns_before_join_on(
    t: SyntaxTree,
    cache: SchemaCacheView,
    off: int,
    y: CompletionItemView,
)
    requires
        spec_before_join_on(spec_context(t, cache, off)),
        spec_complete(t, cache, off).contains(y),
    ensures
        y.kind != CompletionItemKind::Column,
{
    let ctx = spec_context(t, cache, off);
    lemma_assemble_elems(spec_candidates(ctx), ctx, y);
    let i = choose|i: int|
        0 <= i < spec_candidates(ctx).len() && spec_is_relevant(
            #[trigger] spec_candidates(ctx)[i].filter,
            ctx,
        ) && y == spec_item_of(spec_candidates(ctx)[i], ctx);
    lemma_candidate_at(ctx, i);
    if y.kind == CompletionItemKind::Column {
        assert(spec_candidates(ctx)[i].filter matches CompletionRelevanceDataView::Column(_));
        assert(!spec_is_relevant(spec_candidates(ctx)[i].filter, ctx));
    }
}

/// Qualifier exactness: under an explicit qualifier `q`, every surviving
/// table or function names a snapshot entity whose schema is exactly `q`.
pub proof fn lemma_qualifier_exactness(
    t: SyntaxTree,
    cache: SchemaCacheView,
    off: int,
    q: Seq<char>,
    y: CompletionItemView,
)
    requires
        spec_context(t, cache, off).schema_or_alias_name == Some(q),
        spec_complete(t, cache, off).contains(y),
    ensures
        y.kind == CompletionItemKind::Table ==> exists|k: int|
            0 <= k < cache.tables.len() && (#[trigger] cache.tables[k]).schema == q
                && cache.tables[k].name == y.label,
        y.kind == CompletionItemKind::Function ==> exists|k: int|
            0 <= k < cache.functions.len() && (#[trigger] cache.functions[k]).schema == q
                && cache.functions[k].name == y.label,
        y.kind != CompletionItemKind::Schema,
{
    let ctx = spec_context(t, cache, off);
    lemma_assemble_elems(spec_candidates(ctx), ctx, y);
    let i = choose|i: int|
        0 <= i < spec_candidates(ctx).len() && spec_is_relevant(
            #[trigger] spec_candidates(ctx)[i].filter,
            ctx,
        ) && y == spec_item_of(spec_candidates(ctx)[i], ctx);
    lemma_candidate_at(ctx, i);
    let tn = ctx.cache.tables.len() as int;
    let cn = ctx.cache.columns.len() as int;
    let sn = ctx.cache.schemas.len() as int;
    if y.kind == CompletionItemKind::Table {
        assert(i < tn);
        assert(cache.tables[i].schema == q && cache.tables[i].name == y.label);
    }
    if y.kind == CompletionItemKind::Function {
        let k = i - tn - cn - sn;
        assert(cache.functions[k].schema == q && cache.functions[k].name == y.label);
    }
}

/// Non-emptiness boundary: with the cursor on a keyword, a bare `=`, a
/// comma, a literal or a parse-error node, the completion list is empty.
pub proof fn lemma_boundary_yields_empty(t: SyntaxTree, cache: SchemaCacheView, off: int)
    requires
        ({
            let c = spec_context(t, cache, off);
            c.node_under_cursor matches Some(n) && (n.kind == crate::syntax_tree::NodeKind::Equals
                || n.kind == crate::syntax_tree::NodeKind::Comma || n.kind
                == crate::syntax_tree::NodeKind::Literal || n.kind
                == crate::syntax_tree::NodeKind::Error || n.kind
                == crate::syntax_tree::NodeKind::Keyword)
        }),
    ensures
        spec_complete(t, cache, off) == Seq::<CompletionItemView>::empty(),
{
    let ctx = spec_context(t, cache, off);
    lemma_assemble_of_uncompletable(spec_candidates(ctx), ctx);
}

/// With an uncompletable context every candidate is irrelevant, so the
/// assembled result is empty.
proof fn lemma_assemble_of_uncompletable(
    cands: Seq<PossibleCompletionItemView>,
    ctx: CompletionContextView,
)
    requires
        !crate::filtering::spec_completable(ctx),
    ensures
        spec_assemble(cands, ctx) == Seq::<CompletionItemView>::empty(),
    decreases cands.len(),
{
    if cands.len() > 0 {
        lemma_assemble_of_uncompletable(cands.drop_last(), ctx);
    }
}

} // verus!
