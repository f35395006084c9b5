//! The kind-tagged relevance data of one candidate: which snapshot entity
//! it stands for. Both the relevance filter and the relevance scorer take
//! it as their sole input besides the context.

use vstd::prelude::*;

use crate::schema_cache::{
    Column, ColumnView, Function, FunctionView, Schema, SchemaView, Table, TableView,
};

verus! {

/// Mathematical image of a [`CompletionRelevanceData`].
pub ghost enum CompletionRelevanceDataView {
    Table(TableView),
    Column(ColumnView),
    Function(FunctionView),
    Schema(SchemaView),
}

/// A closed sum over the four candidate kinds, each variant holding the
/// matched snapshot entity. The filter and the scorer match on it
/// exhaustively, so a new kind forces updates at both sites.
#[derive(Debug)]
pub enum CompletionRelevanceData {
    Table(Table),
    Column(Column),
    Function(Function),
    Schema(Schema),
}

impl View for CompletionRelevanceData {
    type V = CompletionRelevanceDataView;

    open spec fn view(&self) -> CompletionRelevanceDataView {
        match self {
            CompletionRelevanceData::Table(t) => CompletionRelevanceDataView::Table(t@),
            CompletionRelevanceData::Column(c) => CompletionRelevanceDataView::Column(c@),
            CompletionRelevanceData::Function(f) => CompletionRelevanceDataView::Function(f@),
            CompletionRelevanceData::Schema(s) => CompletionRelevanceDataView::Schema(s@),
        }
    }
}

impl Clone for CompletionRelevanceData {
    fn clone(&self) -> (res: Self)
        ensures
            res@ == self@,
    {
        match self {
            CompletionRelevanceData::Table(t) => CompletionRelevanceData::Table(t.clone()),
            CompletionRelevanceData::Column(c) => CompletionRelevanceData::Column(c.clone()),
            CompletionRelevanceData::Function(f) => CompletionRelevanceData::Function(f.clone()),
            CompletionRelevanceData::Schema(s) => CompletionRelevanceData::Schema(s.clone()),
        }
    }
}

} // verus!
