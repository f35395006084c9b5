//! Unit tests of the relevance filter, the relevance scorer, the
//! completion-text helper and the typecheck decision core.

use pgt_completions::typecheck::{
    should_check_statement, type_error_of_outcome, DbError, PrepareOutcome, Severity,
    StatementKind,
};
use pgt_completions::{
    get_completion_text_with_schema_or_alias, Column, CompletionBuilder, CompletionContext,
    CompletionFilter, CompletionRelevanceData, CompletionScore, Function, NodeKind,
    NodeUnderCursor, Schema, SchemaCache, Table, TableAlias, WrappingClause,
};

fn empty_cache() -> SchemaCache {
    SchemaCache { schemas: vec![], tables: vec![], columns: vec![], functions: vec![] }
}

fn plain_ctx<'a>(
    cache: &'a SchemaCache,
    clause: Option<WrappingClause>,
) -> CompletionContext<'a> {
    CompletionContext {
        schema_cache: cache,
        node_under_cursor: None,
        wrapping_clause_type: clause,
        wrapping_node_kind: None,
        is_invocation: false,
        mentioned_table_aliases: vec![],
        schema_or_alias_name: None,
    }
}

fn table_data(name: &str, schema: &str) -> CompletionRelevanceData {
    CompletionRelevanceData::Table(Table {
        name: name.to_string(),
        schema: schema.to_string(),
    })
}

fn column_data(name: &str, table: &str) -> CompletionRelevanceData {
    CompletionRelevanceData::Column(Column {
        name: name.to_string(),
        table_name: table.to_string(),
        schema: "public".to_string(),
        data_type: "text".to_string(),
    })
}

fn schema_data(name: &str) -> CompletionRelevanceData {
    CompletionRelevanceData::Schema(Schema {
        id: 0,
        name: name.to_string(),
        owner: "postgres".to_string(),
    })
}

fn function_data(name: &str, schema: &str) -> CompletionRelevanceData {
    CompletionRelevanceData::Function(Function {
        name: name.to_string(),
        schema: schema.to_string(),
    })
}

fn ident_node(text: &str, start: usize, end: usize) -> NodeUnderCursor {
    NodeUnderCursor {
        kind: NodeKind::Identifier,
        text: text.to_string(),
        start_byte: start,
        end_byte: end,
        prev_kind: None,
    }
}

#[test]
fn filter_rejects_tables_in_select_and_where() {
    let cache = empty_cache();
    for clause in [WrappingClause::Select, WrappingClause::Where] {
        let ctx = plain_ctx(&cache, Some(clause));
        let filter = CompletionFilter { data: table_data("users", "public") };
        assert!(filter.is_relevant(&ctx).is_none());
    }
    let ctx = plain_ctx(&cache, Some(WrappingClause::From));
    let filter = CompletionFilter { data: table_data("users", "public") };
    assert!(filter.is_relevant(&ctx).is_some());
}

#[test]
fn filter_rejects_columns_in_from_and_before_on() {
    let cache = empty_cache();

    let ctx = plain_ctx(&cache, Some(WrappingClause::From));
    let filter = CompletionFilter { data: column_data("id", "users") };
    assert!(filter.is_relevant(&ctx).is_none());

    // a JOIN without an ON node keeps columns out
    let ctx = plain_ctx(&cache, Some(WrappingClause::Join { on_node: None }));
    assert!(filter.is_relevant(&ctx).is_none());

    // the node under the cursor ends before the ON starts: still out
    let mut ctx = plain_ctx(&cache, Some(WrappingClause::Join { on_node: Some(50) }));
    ctx.node_under_cursor = Some(ident_node("p", 40, 41));
    assert!(filter.is_relevant(&ctx).is_none());

    // after the ON the column is eligible
    let mut ctx = plain_ctx(&cache, Some(WrappingClause::Join { on_node: Some(50) }));
    ctx.node_under_cursor = Some(ident_node("p", 52, 53));
    assert!(filter.is_relevant(&ctx).is_some());
}

#[test]
fn filter_applies_qualifier_exactly() {
    let cache = empty_cache();

    let mut ctx = plain_ctx(&cache, Some(WrappingClause::From));
    ctx.schema_or_alias_name = Some("auth".to_string());

    let matching = CompletionFilter { data: table_data("users", "auth") };
    assert!(matching.is_relevant(&ctx).is_some());

    let mismatching = CompletionFilter { data: table_data("users", "public") };
    assert!(mismatching.is_relevant(&ctx).is_none());

    let function_matching = CompletionFilter { data: function_data("now", "auth") };
    assert!(function_matching.is_relevant(&ctx).is_some());

    let function_mismatching = CompletionFilter { data: function_data("now", "public") };
    assert!(function_mismatching.is_relevant(&ctx).is_none());

    // a schema can never be qualified by another schema or alias
    let schema = CompletionFilter { data: schema_data("auth") };
    assert!(schema.is_relevant(&ctx).is_none());
}

#[test]
fn filter_resolves_column_qualifier_through_aliases() {
    let cache = empty_cache();
    let mut ctx = plain_ctx(&cache, Some(WrappingClause::Select));
    ctx.mentioned_table_aliases = vec![TableAlias {
        alias: "u".to_string(),
        table_name: "users".to_string(),
    }];
    ctx.schema_or_alias_name = Some("u".to_string());

    let own_column = CompletionFilter { data: column_data("id", "users") };
    assert!(own_column.is_relevant(&ctx).is_some());

    let foreign_column = CompletionFilter { data: column_data("id", "posts") };
    assert!(foreign_column.is_relevant(&ctx).is_none());

    // an unknown alias resolves to nothing
    ctx.schema_or_alias_name = Some("x".to_string());
    assert!(own_column.is_relevant(&ctx).is_none());
}

#[test]
fn filter_rejects_tables_and_columns_in_invocation() {
    let cache = empty_cache();
    let mut ctx = plain_ctx(&cache, Some(WrappingClause::Select));
    ctx.is_invocation = true;

    let table = CompletionFilter { data: table_data("users", "public") };
    assert!(table.is_relevant(&ctx).is_none());

    let column = CompletionFilter { data: column_data("id", "users") };
    assert!(column.is_relevant(&ctx).is_none());

    let function = CompletionFilter { data: function_data("now", "public") };
    assert!(function.is_relevant(&ctx).is_some());

    let schema = CompletionFilter { data: schema_data("public") };
    assert!(schema.is_relevant(&ctx).is_some());
}

#[test]
fn filter_rejects_uncompletable_nodes() {
    let cache = empty_cache();
    for kind in [
        NodeKind::Keyword,
        NodeKind::Equals,
        NodeKind::Comma,
        NodeKind::Literal,
        NodeKind::Error,
    ] {
        let mut ctx = plain_ctx(&cache, Some(WrappingClause::From));
        ctx.node_under_cursor = Some(NodeUnderCursor {
            kind,
            text: String::new(),
            start_byte: 0,
            end_byte: 1,
            prev_kind: None,
        });
        let filter = CompletionFilter { data: table_data("users", "public") };
        assert!(filter.is_relevant(&ctx).is_none());
    }
}

#[test]
fn score_stacks_prefix_and_affinity() {
    let cache = empty_cache();

    // table with a matching prefix in FROM: 30 + 10
    let mut ctx = plain_ctx(&cache, Some(WrappingClause::From));
    ctx.node_under_cursor = Some(ident_node("u", 14, 15));
    let score = CompletionScore { data: table_data("users", "public") };
    assert_eq!(score.get_score(&ctx), 40);

    // non-matching prefix: affinity alone
    let score = CompletionScore { data: table_data("posts", "public") };
    assert_eq!(score.get_score(&ctx), 10);

    // default schema at a table position: 20 + 5
    let score = CompletionScore { data: schema_data("public") };
    assert_eq!(score.get_score(&ctx), 25);

    // other schema at a table position: 20
    let score = CompletionScore { data: schema_data("auth") };
    assert_eq!(score.get_score(&ctx), 20);
}

#[test]
fn score_boosts_columns_of_mentioned_tables() {
    let cache = empty_cache();
    let mut ctx = plain_ctx(&cache, Some(WrappingClause::Join { on_node: Some(30) }));
    ctx.node_under_cursor = Some(ident_node("", 32, 33));
    ctx.node_under_cursor.as_mut().unwrap().kind = NodeKind::Other;
    ctx.mentioned_table_aliases = vec![TableAlias {
        alias: "u".to_string(),
        table_name: "users".to_string(),
    }];

    // column of a mentioned table after the ON: 10 + 20
    let mentioned = CompletionScore { data: column_data("uid", "users") };
    assert_eq!(mentioned.get_score(&ctx), 30);

    // column of an unmentioned table: 10
    let unmentioned = CompletionScore { data: column_data("zid", "zoos") };
    assert_eq!(unmentioned.get_score(&ctx), 10);
}

#[test]
fn score_boosts_functions_by_position() {
    let cache = empty_cache();

    let mut ctx = plain_ctx(&cache, Some(WrappingClause::Select));
    let score = CompletionScore { data: function_data("now", "public") };
    assert_eq!(score.get_score(&ctx), 5);

    ctx.is_invocation = true;
    assert_eq!(score.get_score(&ctx), 10);

    let ctx = plain_ctx(&cache, Some(WrappingClause::From));
    assert_eq!(score.get_score(&ctx), 0);
}

#[test]
fn completion_text_qualifies_foreign_schemas_only() {
    let cache = empty_cache();
    let ctx = plain_ctx(&cache, None);
    assert_eq!(get_completion_text_with_schema_or_alias(&ctx, "users", "public"), "users");
    assert_eq!(
        get_completion_text_with_schema_or_alias(&ctx, "users", "auth"),
        "auth.users"
    );

    // a qualifier the user already typed suppresses qualification
    let mut ctx = plain_ctx(&cache, None);
    ctx.schema_or_alias_name = Some("auth".to_string());
    assert_eq!(get_completion_text_with_schema_or_alias(&ctx, "users", "auth"), "users");
}

#[test]
fn providers_emit_one_candidate_per_entity() {
    let cache = SchemaCache {
        schemas: vec![Schema { id: 0, name: "public".to_string(), owner: "postgres".to_string() }],
        tables: vec![
            Table { name: "users".to_string(), schema: "public".to_string() },
            Table { name: "posts".to_string(), schema: "auth".to_string() },
        ],
        columns: vec![],
        functions: vec![],
    };
    let ctx = plain_ctx(&cache, None);
    let mut builder = CompletionBuilder::new();
    pgt_completions::complete_tables(&ctx, &mut builder);
    assert_eq!(builder.items.len(), 2);
    assert_eq!(builder.items[0].label, "users");
    assert_eq!(builder.items[0].description, "Schema: public");
    assert_eq!(builder.items[0].completion_text, "users");
    assert_eq!(builder.items[1].label, "posts");
    assert_eq!(builder.items[1].completion_text, "auth.posts");
    pgt_completions::complete_schemas(&ctx, &mut builder);
    assert_eq!(builder.items.len(), 3);
    assert_eq!(builder.items[2].label, "public");
    assert_eq!(builder.items[2].description, "Owner: postgres");
}

#[test]
fn typecheck_gates_statement_kinds() {
    assert!(should_check_statement(StatementKind::Select));
    assert!(should_check_statement(StatementKind::Insert));
    assert!(should_check_statement(StatementKind::Update));
    assert!(should_check_statement(StatementKind::Delete));
    assert!(should_check_statement(StatementKind::CommonTableExpr));
    assert!(!should_check_statement(StatementKind::Other));
}

#[test]
fn typecheck_maps_rejections_to_type_errors() {
    let err = DbError {
        message: "column \"nam\" does not exist".to_string(),
        code: "42703".to_string(),
        severity: Severity::Error,
        position: Some(27),
        table: Some("users".to_string()),
        column: None,
        data_type: None,
        constraint: None,
    };
    let te = type_error_of_outcome(PrepareOutcome::Rejected(err), Some((26, 29)))
        .expect("a rejection must yield a type error");
    assert_eq!(te.message, "column \"nam\" does not exist");
    assert_eq!(te.code, "42703");
    assert_eq!(te.severity, Severity::Error);
    assert_eq!(te.position, Some(27));
    assert_eq!(te.range, Some((26, 29)));
    assert_eq!(te.table.as_deref(), Some("users"));
    assert!(te.column.is_none());

    assert!(type_error_of_outcome(PrepareOutcome::Prepared, None).is_none());
    assert!(type_error_of_outcome(PrepareOutcome::Unavailable, None).is_none());
}
