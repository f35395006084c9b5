//! The schema snapshot: immutable, already-loaded collections of schemas,
//! tables, columns and functions, borrowed read-only for the duration of one
//! completion request.

use vstd::prelude::*;

verus! {

/// Mathematical image of a [`Schema`]: the string fields as character
/// sequences.
pub ghost struct SchemaView {
    pub id: int,
    pub name: Seq<char>,
    pub owner: Seq<char>,
}

/// A namespace of the database, as the snapshot loader materialised it.
#[derive(Debug)]
pub struct Schema {
    pub id: i64,
    pub name: String,
    pub owner: String,
}

impl View for Schema {
    type V = SchemaView;

    open spec fn view(&self) -> SchemaView {
        SchemaView { id: self.id as int, name: self.name@, owner: self.owner@ }
    }
}

impl Clone for Schema {
    fn clone(&self) -> (res: Self)
        ensures
            res@ == self@,
    {
        Schema { id: self.id, name: self.name.clone(), owner: self.owner.clone() }
    }
}

/// Mathematical image of a [`Table`].
pub ghost struct TableView {
    pub name: Seq<char>,
    pub schema: Seq<char>,
}

/// A table of the snapshot; its identity is the `name` + `schema` pair.
#[derive(Debug)]
pub struct Table {
    pub name: String,
    pub schema: String,
}

impl View for Table {
    type V = TableView;

    open spec fn view(&self) -> TableView {
        TableView { name: self.name@, schema: self.schema@ }
    }
}

impl Clone for Table {
    fn clone(&self) -> (res: Self)
        ensures
            res@ == self@,
    {
        Table { name: self.name.clone(), schema: self.schema.clone() }
    }
}

/// Mathematical image of a [`Column`].
pub ghost struct ColumnView {
    pub name: Seq<char>,
    pub table_name: Seq<char>,
    pub schema: Seq<char>,
    pub data_type: Seq<char>,
}

/// A column of the snapshot, together with its owning table and schema.
#[derive(Debug)]
pub struct Column {
    pub name: String,
    pub table_name: String,
    pub schema: String,
    pub data_type: String,
}

impl View for Column {
    type V = ColumnView;

    open spec fn view(&self) -> ColumnView {
        ColumnView {
            name: self.name@,
            table_name: self.table_name@,
            schema: self.schema@,
            data_type: self.data_type@,
        }
    }
}

impl Clone for Column {
    fn clone(&self) -> (res: Self)
        ensures
            res@ == self@,
    {
        Column {
            name: self.name.clone(),
            table_name: self.table_name.clone(),
            schema: self.schema.clone(),
            data_type: self.data_type.clone(),
        }
    }
}

/// Mathematical image of a [`Function`].
pub ghost struct FunctionView {
    pub name: Seq<char>,
    pub schema: Seq<char>,
}

/// A callable routine of the snapshot.
#[derive(Debug)]
pub struct Function {
    pub name: String,
    pub schema: String,
}

impl View for Function {
    type V = FunctionView;

    open spec fn view(&self) -> FunctionView {
        FunctionView { name: self.name@, schema: self.schema@ }
    }
}

impl Clone for Function {
    fn clone(&self) -> (res: Self)
        ensures
            res@ == self@,
    {
        Function { name: self.name.clone(), schema: self.schema.clone() }
    }
}

/// Mathematical image of a [`SchemaCache`]: every collection as a sequence of
/// entity views, in its insertion order.
pub ghost struct SchemaCacheView {
    pub schemas: Seq<SchemaView>,
    pub tables: Seq<TableView>,
    pub columns: Seq<ColumnView>,
    pub functions: Seq<FunctionView>,
}

/// The whole snapshot. A request reads it and never writes it; a refresh of
/// the surrounding system swaps in a new value instead of mutating this one.
pub struct SchemaCache {
    pub schemas: Vec<Schema>,
    pub tables: Vec<Table>,
    pub columns: Vec<Column>,
    pub functions: Vec<Function>,
}

impl View for SchemaCache {
    type V = SchemaCacheView;

    open spec fn view(&self) -> SchemaCacheView {
        SchemaCacheView {
            schemas: self.schemas@.map_values(|s: Schema| s@),
            tables: self.tables@.map_values(|t: Table| t@),
            columns: self.columns@.map_values(|c: Column| c@),
            functions: self.functions@.map_values(|f: Function| f@),
        }
    }
}

} // verus!
