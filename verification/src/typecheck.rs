//! The decision core of the live type-checking feature: which statements
//! are worth preparing against a connection, and what a prepare outcome
//! means. The connection work itself is I/O and lives outside the
//! library; it hands the outcome back as a plain value.

use vstd::prelude::*;

verus! {

/// The coarse kind of a parsed statement.
#[derive(Clone, Copy, Debug, PartialEq, Eq, Structural)]
pub enum StatementKind {
    Select,
    Insert,
    Update,
    Delete,
    CommonTableExpr,
    Other,
}

/// The severity a database server attaches to an error report.
#[derive(Clone, Copy, Debug, PartialEq, Eq, Structural)]
pub enum Severity {
    Panic,
    Fatal,
    Error,
    Warning,
    Notice,
    Debug,
    Info,
    Log,
}

/// What the server reported when a statement was rejected, as plain
/// values.
#[derive(Debug)]
pub struct DbError {
    pub message: String,
    pub code: String,
    pub severity: Severity,
    pub position: Option<usize>,
    pub table: Option<String>,
    pub column: Option<String>,
    pub data_type: Option<String>,
    pub constraint: Option<String>,
}

/// A type error of one statement, ready for diagnostics rendering.
#[derive(Debug)]
pub struct TypeError {
    pub message: String,
    pub code: String,
    pub severity: Severity,
    pub position: Option<usize>,
    pub range: Option<(usize, usize)>,
    pub table: Option<String>,
    pub column: Option<String>,
    pub data_type: Option<String>,
    pub constraint: Option<String>,
}

/// How one prepare attempt ended, as the surrounding system reports it.
#[derive(Debug)]
pub enum PrepareOutcome {
    /// The server accepted the statement.
    Prepared,
    /// The server rejected the statement with an error report.
    Rejected(DbError),
    /// No connection could be acquired, or the failure was not a
    /// database error; nothing can be said of the statement.
    Unavailable,
}

/// The view of an optional string as an optional character sequence.
pub open spec fn opt_str_view(o: Option<String>) -> Option<Seq<char>> {
    match o {
        Some(s) => Some(s@),
        None => None,
    }
}

/// Whether a statement kind is type-checked at all: only the data
/// statements and common table expressions are prepared.
pub open spec fn spec_should_check(kind: StatementKind) -> bool {
    kind == StatementKind::Select || kind == StatementKind::Insert || kind
        == StatementKind::Update || kind == StatementKind::Delete || kind
        == StatementKind::CommonTableExpr
}

/// Decides whether a statement of the given kind is prepared against a
/// connection at all.
pub fn should_check_statement(kind: StatementKind) -> (r: bool)
    ensures
        r == spec_should_check(kind),
{
    match kind {
        StatementKind::Select => true,
        StatementKind::Insert => true,
        StatementKind::Update => true,
        StatementKind::Delete => true,
        StatementKind::CommonTableExpr => true,
        StatementKind::Other => false,
    }
}

/// Maps one prepare outcome to its result: a rejection report becomes a
/// type error carrying the server's fields and the given source range;
/// an accepted statement, and an unavailable connection, yield none.
pub fn type_error_of_outcome(outcome: PrepareOutcome, range: Option<(usize, usize)>) -> (r:
    Option<TypeError>)
    ensures
        (outcome matches PrepareOutcome::Rejected(_)) == (r is Some),
        outcome matches PrepareOutcome::Rejected(e) ==> r matches Some(te) && te.message@
            == e.message@ && te.code@ == e.code@ && te.severity == e.severity && te.position
            == e.position && te.range == range && opt_str_view(te.table) == opt_str_view(e.table)
            && opt_str_view(te.column) == opt_str_view(e.column) && opt_str_view(te.data_type)
            == opt_str_view(e.data_type) && opt_str_view(te.constraint) == opt_str_view(
            e.constraint,
        ),
{
    match outcome {
        PrepareOutcome::Prepared => None,
        PrepareOutcome::Unavailable => None,
        PrepareOutcome::Rejected(e) => Some(
            TypeError {
                message: e.message,
                code: e.code,
                severity: e.severity,
                position: e.position,
                range,
                table: e.table,
                column: e.column,
                data_type: e.data_type,
                constraint: e.constraint,
            },
        ),
    }
}

} // verus!
