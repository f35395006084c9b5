//! Context-aware SQL completion engine for a Postgres-dialect language tool.
//!
//! Given a concrete syntax tree of a partially typed statement, a cursor byte
//! offset and an immutable snapshot of database schema metadata, the library
//! derives a [`context::CompletionContext`], generates one candidate per
//! snapshot entity, filters the candidates by syntactic relevance, scores the
//! survivors and returns them as a deterministically ordered list of
//! [`item::CompletionItem`]s.

pub mod builder;
pub mod context;
pub mod filtering;
pub mod item;
pub mod laws;
pub mod providers;
pub mod relevance;
pub mod schema_cache;
pub mod scoring;
pub mod syntax_tree;
pub mod text;
pub mod typecheck;

pub use builder::{complete, CompletionBuilder, PossibleCompletionItem};
pub use context::{
    extract_context, CompletionContext, NodeUnderCursor, TableAlias, WrappingClause,
    WrappingNode,
};
pub use filtering::CompletionFilter;
pub use item::{CompletionItem, CompletionItemKind};
pub use providers::{
    complete_columns, complete_functions, complete_schemas, complete_tables,
    get_completion_text_with_schema_or_alias,
};
pub use relevance::CompletionRelevanceData;
pub use schema_cache::{Column, Function, Schema, SchemaCache, Table};
pub use scoring::CompletionScore;
pub use syntax_tree::{NodeData, NodeKind, SyntaxTree};
