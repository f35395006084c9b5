//! The builder: collects every provider's candidates, applies the
//! relevance filter, scores the survivors and assembles the final list,
//! ordered by descending score with ties broken lexicographically by
//! label. Equal candidates keep provider order (the insertion is stable).

use vstd::prelude::*;

use crate::context::{extract_context, spec_context, CompletionContext, CompletionContextView};
use crate::filtering::{spec_is_relevant, CompletionFilter};
use crate::item::{CompletionItem, CompletionItemKind, CompletionItemView};
use crate::providers::{
    complete_columns, complete_functions, complete_schemas, complete_tables, spec_candidates,
};
use crate::relevance::CompletionRelevanceDataView;
use crate::schema_cache::{SchemaCache, SchemaCacheView};
use crate::scoring::{spec_score, CompletionScore};
use crate::syntax_tree::SyntaxTree;
use crate::text::{lex_lt, str_lex_lt};

verus! {

/// Mathematical image of a [`PossibleCompletionItem`].
pub ghost struct PossibleCompletionItemView {
    pub label: Seq<char>,
    pub score: CompletionRelevanceDataView,
    pub filter: CompletionRelevanceDataView,
    pub description: Seq<char>,
    pub kind: CompletionItemKind,
    pub completion_text: Seq<char>,
}

/// A candidate before filtering: created by a provider, consumed within
/// the same request.
#[derive(Debug)]
pub struct PossibleCompletionItem {
    pub label: String,
    pub score: CompletionScore,
    pub filter: CompletionFilter,
    pub description: String,
    pub kind: CompletionItemKind,
    pub completion_text: String,
}

impl View for PossibleCompletionItem {
    type V = PossibleCompletionItemView;

    open spec fn view(&self) -> PossibleCompletionItemView {
        PossibleCompletionItemView {
            label: self.label@,
            score: self.score@,
            filter: self.filter@,
            description: self.description@,
            kind: self.kind,
            completion_text: self.completion_text@,
        }
    }
}

/// Whether item `a` must come strictly before item `b` in the final list:
/// a higher score wins, and inside one score the lexicographically earlier
/// label wins.
pub open spec fn spec_precedes(a: CompletionItemView, b: CompletionItemView) -> bool {
    a.score > b.score || (a.score == b.score && lex_lt(a.label, b.label))
}

/// A sequence free of ranking inversions: no later item must strictly
/// precede an earlier one.
pub open spec fn spec_ordered(s: Seq<CompletionItemView>) -> bool {
    forall|p: int, q: int| 0 <= p < q < s.len() ==> !spec_precedes(s[q], s[p])
}

/// Insertion of `x` into `s` just before the first element that `x` must
/// strictly precede; equal elements keep their order, so the insertion is
/// stable.
pub open spec fn spec_sorted_insert(
    s: Seq<CompletionItemView>,
    x: CompletionItemView,
) -> Seq<CompletionItemView>
    decreases s.len(),
{
    if s.len() == 0 {
        seq![x]
    } else if spec_precedes(x, s[0]) {
        seq![x] + s
    } else {
        seq![s[0]] + spec_sorted_insert(s.drop_first(), x)
    }
}

/// The final item a surviving candidate becomes: the candidate's fields
/// plus its score under the context.
pub open spec fn spec_item_of(
    c: PossibleCompletionItemView,
    ctx: CompletionContextView,
) -> CompletionItemView {
    CompletionItemView {
        label: c.label,
        score: spec_score(c.score, ctx),
        description: c.description,
        kind: c.kind,
        completion_text: c.completion_text,
    }
}

/// The assembled result of a candidate sequence: each candidate in order,
/// kept when relevant, scored and placed by stable sorted insertion.
pub open spec fn spec_assemble(
    cands: Seq<PossibleCompletionItemView>,
    ctx: CompletionContextView,
) -> Seq<CompletionItemView>
    decreases cands.len(),
{
    if cands.len() == 0 {
        Seq::empty()
    } else {
        let rest = spec_assemble(cands.drop_last(), ctx);
        if spec_is_relevant(cands.last().filter, ctx) {
            spec_sorted_insert(rest, spec_item_of(cands.last(), ctx))
        } else {
            rest
        }
    }
}

/// The full functional specification of [`complete`]: the context derived
/// from the tree and the offset, every provider's candidates in provider
/// order, filtered, scored and sorted.
pub open spec fn spec_complete(
    t: SyntaxTree,
    cache: SchemaCacheView,
    off: int,
) -> Seq<CompletionItemView> {
    let ctx = spec_context(t, cache, off);
    spec_assemble(spec_candidates(ctx), ctx)
}

/// Collects candidates for one request.
pub struct CompletionBuilder {
    pub items: Vec<PossibleCompletionItem>,
}

impl View for CompletionBuilder {
    type V = Seq<PossibleCompletionItemView>;

    open spec fn view(&self) -> Seq<PossibleCompletionItemView> {
        self.items@.map_values(|i: PossibleCompletionItem| i@)
    }
}

impl CompletionBuilder {
    /// An empty builder.
    pub fn new() -> (b: Self)
        ensures
            b@ == Seq::<PossibleCompletionItemView>::empty(),
    {
        let b = CompletionBuilder { items: Vec::new() };
        proof {
            assert(b@ =~= Seq::<PossibleCompletionItemView>::empty());
        }
        b
    }

    /// Appends one candidate.
    pub fn add_item(&mut self, item: PossibleCompletionItem)
        ensures
            final(self)@ == old(self)@.push(item@),
    {
        let ghost prev = self@;
        let ghost iv = item@;
        self.items.push(item);
        proof {
            assert(self@ =~= prev.push(iv));
        }
    }
}

/// Whether item `a` must come strictly before item `b`.
fn item_precedes(a: &CompletionItem, b: &CompletionItem) -> (r: bool)
    ensures
        r == spec_precedes(a@, b@),
{
    if a.score > b.score {
        true
    } else if a.score == b.score {
        str_lex_lt(a.label.as_str(), b.label.as_str())
    } else {
        false
    }
}

/// Inserting before the first strictly-preceded element is what
/// [`spec_sorted_insert`] does.
proof fn lemma_sorted_insert_at(s: Seq<CompletionItemView>, x: CompletionItemView, j: int)
    requires
        0 <= j <= s.len(),
        forall|k: int| 0 <= k < j ==> !spec_precedes(x, s[k]),
        j < s.len() ==> spec_precedes(x, s[j]),
    ensures
        spec_sorted_insert(s, x) == s.insert(j, x),
    decreases s.len(),
{
    if s.len() == 0 {
        assert(spec_sorted_insert(s, x) =~= s.insert(0, x));
    } else if j == 0 {
        assert(spec_precedes(x, s[0]));
        assert(seq![x] + s =~= s.insert(0, x));
    } else {
        assert(!spec_precedes(x, s[0]));
        let d = s.drop_first();
        assert forall|k: int| 0 <= k < j - 1 implies !spec_precedes(x, d[k]) by {
            assert(d[k] == s[k + 1]);
        }
        if j - 1 < d.len() {
            assert(d[j - 1] == s[j]);
        }
        lemma_sorted_insert_at(d, x, j - 1);
        assert(seq![s[0]] + d.insert(j - 1, x) =~= s.insert(j, x));
    }
}

/// The stable position of `item` in the ordered list `out`: just before
/// the first element that `item` must strictly precede.
fn insert_position(out: &Vec<CompletionItem>, item: &CompletionItem) -> (j: usize)
    ensures
        j <= out@.len(),
        forall|k: int| 0 <= k < j ==> !spec_precedes(item@, #[trigger] out@[k]@),
        j < out@.len() ==> spec_precedes(item@, out@[j as int]@),
{
    let mut j: usize = 0;
    while j < out.len()
        invariant
            j <= out@.len(),
            forall|k: int| 0 <= k < j ==> !spec_precedes(item@, #[trigger] out@[k]@),
        decreases out@.len() - j,
    {
        if item_precedes(item, &out[j]) {
            return j;
        }
        j += 1;
    }
    j
}

/// Inserts `item` into the ordered list `out` at its stable position.
fn insert_sorted(out: &mut Vec<CompletionItem>, item: CompletionItem)
    ensures
        final(out)@.map_values(|it: CompletionItem| it@) == spec_sorted_insert(
            old(out)@.map_values(|it: CompletionItem| it@),
            item@,
        ),
{
    let ghost s = out@.map_values(|it: CompletionItem| it@);
    let ghost iv = item@;
    let j = insert_position(out, &item);
    proof {
        assert forall|k: int| 0 <= k < s.len() implies s[k] == out@[k]@ by {}
        lemma_sorted_insert_at(s, iv, j as int);
    }
    out.insert(j, item);
    proof {
        assert(out@.map_values(|it: CompletionItem| it@) =~= s.insert(j as int, iv));
    }
}

impl CompletionBuilder {
    /// Filters, scores and orders the collected candidates.
    pub fn finish(self, ctx: &CompletionContext) -> (res: Vec<CompletionItem>)
        ensures
            res@.map_values(|it: CompletionItem| it@) == spec_assemble(self@, ctx@),
    {
        let ghost cands = self@;
        let items = self.items;
        let mut out: Vec<CompletionItem> = Vec::new();
        let mut i: usize = 0;
        proof {
            assert(cands.take(0) =~= Seq::<PossibleCompletionItemView>::empty());
            assert(out@.map_values(|it: CompletionItem| it@) =~= Seq::<
                CompletionItemView,
            >::empty());
        }
        while i < items.len()
            invariant
                cands == items@.map_values(|c: PossibleCompletionItem| c@),
                i <= items@.len(),
                out@.map_values(|it: CompletionItem| it@) == spec_assemble(
                    cands.take(i as int),
                    ctx@,
                ),
            decreases items@.len() - i,
        {
            proof {
                assert(cands[i as int] == items@[i as int]@);
            }
            let c = &items[i];
            if c.filter.is_relevant(ctx).is_some() {
                let score = c.score.get_score(ctx);
                let finished = CompletionItem {
                    label: c.label.clone(),
                    score,
                    description: c.description.clone(),
                    kind: c.kind,
                    completion_text: c.completion_text.clone(),
                };
                proof {
                    assert(finished@ == spec_item_of(cands[i as int], ctx@));
                }
                insert_sorted(&mut out, finished);
            }
            proof {
                assert(cands.take(i + 1).drop_last() =~= cands.take(i as int));
                assert(cands.take(i + 1).last() == cands[i as int]);
            }
            i += 1;
        }
        proof {
            assert(cands.take(cands.len() as int) =~= cands);
        }
        out
    }
}

/// The completion pipeline for one request: derives the context, invokes
/// every candidate provider, filters, scores and orders. The result is a
/// function of the three inputs alone, so repeated calls on one tree,
/// snapshot and cursor agree.
pub fn complete(tree: &SyntaxTree, cache: &SchemaCache, position: usize) -> (res: Vec<
    CompletionItem,
>)
    requires
        tree.wf(),
    ensures
        res@.map_values(|it: CompletionItem| it@) == spec_complete(
            *tree,
            cache@,
            position as int,
        ),
{
    let ctx = extract_context(tree, cache, position);
    let mut builder = CompletionBuilder::new();
    complete_tables(&ctx, &mut builder);
    complete_columns(&ctx, &mut builder);
    complete_schemas(&ctx, &mut builder);
    complete_functions(&ctx, &mut builder);
    proof {
        assert(builder@ =~= spec_candidates(ctx@));
    }
    builder.finish(&ctx)
}

} // verus!
