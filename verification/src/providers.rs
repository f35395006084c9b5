//! The candidate providers: one independent, side-effect-free function per
//! completion kind. Each iterates its snapshot collection in insertion
//! order and emits one candidate per entity; no filtering or scoring
//! happens here.

use vstd::prelude::*;
use vstd::string::StringExecFns;

use crate::builder::{CompletionBuilder, PossibleCompletionItem, PossibleCompletionItemView};
use crate::context::{CompletionContext, CompletionContextView};
use crate::item::CompletionItemKind;
use crate::relevance::{CompletionRelevanceData, CompletionRelevanceDataView};
use crate::schema_cache::{ColumnView, FunctionView, SchemaView, TableView};
use crate::scoring::CompletionScore;
use crate::filtering::CompletionFilter;
use crate::text::str_eq;

verus! {

/// The text inserted on acceptance: the bare name where the entity lives
/// in the session's default schema (`public`) or the user already typed a
/// qualifier, the `schema.name` form otherwise.
pub open spec fn spec_completion_text(
    qualifier: Option<Seq<char>>,
    name: Seq<char>,
    schema: Seq<char>,
) -> Seq<char> {
    if schema == "public"@ || qualifier is Some {
        name
    } else {
        schema + "."@ + name
    }
}

/// The candidate a table becomes.
pub open spec fn spec_table_item(ctx: CompletionContextView, t: TableView)
    -> PossibleCompletionItemView {
    PossibleCompletionItemView {
        label: t.name,
        score: CompletionRelevanceDataView::Table(t),
        filter: CompletionRelevanceDataView::Table(t),
        description: "Schema: "@ + t.schema,
        kind: CompletionItemKind::Table,
        completion_text: spec_completion_text(ctx.schema_or_alias_name, t.name, t.schema),
    }
}

/// The candidate a column becomes.
pub open spec fn spec_column_item(ctx: CompletionContextView, c: ColumnView)
    -> PossibleCompletionItemView {
    PossibleCompletionItemView {
        label: c.name,
        score: CompletionRelevanceDataView::Column(c),
        filter: CompletionRelevanceDataView::Column(c),
        description: "Table: "@ + c.table_name,
        kind: CompletionItemKind::Column,
        completion_text: c.name,
    }
}

/// The candidate a schema becomes.
pub open spec fn spec_schema_item(ctx: CompletionContextView, s: SchemaView)
    -> PossibleCompletionItemView {
    PossibleCompletionItemView {
        label: s.name,
        score: CompletionRelevanceDataView::Schema(s),
        filter: CompletionRelevanceDataView::Schema(s),
        description: "Owner: "@ + s.owner,
        kind: CompletionItemKind::Schema,
        completion_text: s.name,
    }
}

/// The candidate a function becomes.
pub open spec fn spec_function_item(ctx: CompletionContextView, f: FunctionView)
    -> PossibleCompletionItemView {
    PossibleCompletionItemView {
        label: f.name,
        score: CompletionRelevanceDataView::Function(f),
        filter: CompletionRelevanceDataView::Function(f),
        description: "Schema: "@ + f.schema,
        kind: CompletionItemKind::Function,
        completion_text: spec_completion_text(ctx.schema_or_alias_name, f.name, f.schema),
    }
}

/// Every candidate of one request, in provider order: tables, columns,
/// schemas, functions, each collection in snapshot insertion order.
pub open spec fn spec_candidates(ctx: CompletionContextView) -> Seq<
    PossibleCompletionItemView,
> {
    ctx.cache.tables.map_values(|t: TableView| spec_table_item(ctx, t))
        + ctx.cache.columns.map_values(|c: ColumnView| spec_column_item(ctx, c))
        + ctx.cache.schemas.map_values(|s: SchemaView| spec_schema_item(ctx, s))
        + ctx.cache.functions.map_values(|f: FunctionView| spec_function_item(ctx, f))
}

/// The text inserted on acceptance, schema-qualified exactly where the
/// schema is not the session's default and no qualifier was typed.
pub fn get_completion_text_with_schema_or_alias(
    ctx: &CompletionContext,
    item_name: &str,
    schema_name: &str,
) -> (r: String)
    ensures
        r@ == spec_completion_text(ctx@.schema_or_alias_name, item_name@, schema_name@),
{
    if str_eq(schema_name, "public") || ctx.schema_or_alias_name.is_some() {
        item_name.to_owned()
    } else {
        schema_name.to_owned().concat(".").concat(item_name)
    }
}

/// Emits one candidate per table of the snapshot.
pub fn complete_tables(ctx: &CompletionContext, builder: &mut CompletionBuilder)
    ensures
        final(builder)@ == old(builder)@ + ctx@.cache.tables.map_values(
            |t: TableView| spec_table_item(ctx@, t),
        ),
{
    let ghost target = ctx@.cache.tables.map_values(|t: TableView| spec_table_item(ctx@, t));
    let ghost base = builder@;
    let available_tables = &ctx.schema_cache.tables;
    let mut i: usize = 0;
    proof {
        assert(base + target.take(0) =~= base);
    }
    while i < available_tables.len()
        invariant
            target == ctx@.cache.tables.map_values(|t: TableView| spec_table_item(ctx@, t)),
            available_tables == ctx.schema_cache.tables,
            i <= available_tables@.len(),
            target.len() == available_tables@.len(),
            builder@ == base + target.take(i as int),
        decreases available_tables@.len() - i,
    {
        let table = &available_tables[i];
        proof {
            assert(ctx@.cache.tables[i as int] == available_tables@[i as int]@);
            assert(target[i as int] == spec_table_item(ctx@, available_tables@[i as int]@));
        }
        let relevance = CompletionRelevanceData::Table(table.clone());
        let item = PossibleCompletionItem {
            label: table.name.clone(),
            score: CompletionScore::from(relevance.clone()),
            filter: CompletionFilter::from(relevance),
            description: "Schema: ".to_owned().concat(table.schema.as_str()),
            kind: CompletionItemKind::Table,
            completion_text: get_completion_text_with_schema_or_alias(
                ctx,
                table.name.as_str(),
                table.schema.as_str(),
            ),
        };
        proof {
            assert(item@ == target[i as int]);
        }
        builder.add_item(item);
        proof {
            assert((base + target.take(i as int)).push(target[i as int]) =~= base + target.take(
                i + 1,
            ));
        }
        i += 1;
    }
    proof {
        assert(target.take(target.len() as int) =~= target);
    }
}

/// Emits one candidate per column of the snapshot.
pub fn complete_columns(ctx: &CompletionContext, builder: &mut CompletionBuilder)
    ensures
        final(builder)@ == old(builder)@ + ctx@.cache.columns.map_values(
            |c: ColumnView| spec_column_item(ctx@, c),
        ),
{
    let ghost target = ctx@.cache.columns.map_values(|c: ColumnView| spec_column_item(ctx@, c));
    let ghost base = builder@;
    let available_columns = &ctx.schema_cache.columns;
    let mut i: usize = 0;
    proof {
        assert(base + target.take(0) =~= base);
    }
    while i < available_columns.len()
        invariant
            target == ctx@.cache.columns.map_values(|c: ColumnView| spec_column_item(ctx@, c)),
            available_columns == ctx.schema_cache.columns,
            i <= available_columns@.len(),
            target.len() == available_columns@.len(),
            builder@ == base + target.take(i as int),
        decreases available_columns@.len() - i,
    {
        let col = &available_columns[i];
        proof {
            assert(ctx@.cache.columns[i as int] == available_columns@[i as int]@);
            assert(target[i as int] == spec_column_item(ctx@, available_columns@[i as int]@));
        }
        let relevance = CompletionRelevanceData::Column(col.clone());
        let item = PossibleCompletionItem {
            label: col.name.clone(),
            score: CompletionScore::from(relevance.clone()),
            filter: CompletionFilter::from(relevance),
            description: "Table: ".to_owned().concat(col.table_name.as_str()),
            kind: CompletionItemKind::Column,
            completion_text: col.name.clone(),
        };
        proof {
            assert(item@ == target[i as int]);
        }
        builder.add_item(item);
        proof {
            assert((base + target.take(i as int)).push(target[i as int]) =~= base + target.take(
                i + 1,
            ));
        }
        i += 1;
    }
    proof {
        assert(target.take(target.len() as int) =~= target);
    }
}

/// Emits one candidate per schema of the snapshot.
pub fn complete_schemas(ctx: &CompletionContext, builder: &mut CompletionBuilder)
    ensures
        final(builder)@ == old(builder)@ + ctx@.cache.schemas.map_values(
            |s: SchemaView| spec_schema_item(ctx@, s),
        ),
{
    let ghost target = ctx@.cache.schemas.map_values(|s: SchemaView| spec_schema_item(ctx@, s));
    let ghost base = builder@;
    let available_schemas = &ctx.schema_cache.schemas;
    let mut i: usize = 0;
    proof {
        assert(base + target.take(0) =~= base);
    }
    while i < available_schemas.len()
        invariant
            target == ctx@.cache.schemas.map_values(|s: SchemaView| spec_schema_item(ctx@, s)),
            available_schemas == ctx.schema_cache.schemas,
            i <= available_schemas@.len(),
            target.len() == available_schemas@.len(),
            builder@ == base + target.take(i as int),
        decreases available_schemas@.len() - i,
    {
        let schema = &available_schemas[i];
        proof {
            assert(ctx@.cache.schemas[i as int] == available_schemas@[i as int]@);
            assert(target[i as int] == spec_schema_item(ctx@, available_schemas@[i as int]@));
        }
        let relevance = CompletionRelevanceData::Schema(schema.clone());
        let item = PossibleCompletionItem {
            label: schema.name.clone(),
            score: CompletionScore::from(relevance.clone()),
            filter: CompletionFilter::from(relevance),
            description: "Owner: ".to_owned().concat(schema.owner.as_str()),
            kind: CompletionItemKind::Schema,
            completion_text: schema.name.clone(),
        };
        proof {
            assert(item@ == target[i as int]);
        }
        builder.add_item(item);
        proof {
            assert((base + target.take(i as int)).push(target[i as int]) =~= base + target.take(
                i + 1,
            ));
        }
        i += 1;
    }
    proof {
        assert(target.take(target.len() as int) =~= target);
    }
}

/// Emits one candidate per function of the snapshot.
pub fn complete_functions(ctx: &CompletionContext, builder: &mut CompletionBuilder)
    ensures
        final(builder)@ == old(builder)@ + ctx@.cache.functions.map_values(
            |f: FunctionView| spec_function_item(ctx@, f),
        ),
{
    let ghost target = ctx@.cache.functions.map_values(
        |f: FunctionView| spec_function_item(ctx@, f),
    );
    let ghost base = builder@;
    let available_functions = &ctx.schema_cache.functions;
    let mut i: usize = 0;
    proof {
        assert(base + target.take(0) =~= base);
    }
    while i < available_functions.len()
        invariant
            target == ctx@.cache.functions.map_values(
                |f: FunctionView| spec_function_item(ctx@, f),
            ),
            available_functions == ctx.schema_cache.functions,
            i <= available_functions@.len(),
            target.len() == available_functions@.len(),
            builder@ == base + target.take(i as int),
        decreases available_functions@.len() - i,
    {
        let func = &available_functions[i];
        proof {
            assert(ctx@.cache.functions[i as int] == available_functions@[i as int]@);
            assert(target[i as int] == spec_function_item(ctx@, available_functions@[i as int]@));
        }
        let relevance = CompletionRelevanceData::Function(func.clone());
        let item = PossibleCompletionItem {
            label: func.name.clone(),
            score: CompletionScore::from(relevance.clone()),
            filter: CompletionFilter::from(relevance),
            description: "Schema: ".to_owned().concat(func.schema.as_str()),
            kind: CompletionItemKind::Function,
            completion_text: get_completion_text_with_schema_or_alias(
                ctx,
                func.name.as_str(),
                func.schema.as_str(),
            ),
        };
        proof {
            assert(item@ == target[i as int]);
        }
        builder.add_item(item);
        proof {
            assert((base + target.take(i as int)).push(target[i as int]) =~= base + target.take(
                i + 1,
            ));
        }
        i += 1;
    }
    proof {
        assert(target.take(target.len() as int) =~= target);
    }
}

} // verus!
