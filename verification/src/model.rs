//! The data that flows through the query layer: schemas, plans and results.
use vstd::prelude::*;
use vstd::string::*;
use crate::json::JsonValue;

verus! {

/// The database dialects a plan can be written for.
#[derive(Clone, Copy, Debug, PartialEq, Eq, Structural)]
pub enum DatabaseDialect {
    Postgres,
    MySQL,
    SQLite,
    MongoDB,
}

/// Views an optional string as an optional character sequence.
pub open spec fn opt_str(o: Option<String>) -> Option<Seq<char>> {
    match o {
        Some(s) => Some(s@),
        None => None,
    }
}

/// A column of a table.
#[derive(Debug)]
pub struct Column {
    pub name: String,
    pub data_type: String,
    pub is_nullable: bool,
    pub is_primary_key: bool,
    pub default_value: Option<String>,
    pub description: Option<String>,
}

pub struct ColumnView {
    pub name: Seq<char>,
    pub data_type: Seq<char>,
    pub is_nullable: bool,
    pub is_primary_key: bool,
    pub default_value: Option<Seq<char>>,
    pub description: Option<Seq<char>>,
}

impl View for Column {
    type V = ColumnView;

    open spec fn view(&self) -> ColumnView {
        ColumnView {
            name: self.name@,
            data_type: self.data_type@,
            is_nullable: self.is_nullable,
            is_primary_key: self.is_primary_key,
            default_value: opt_str(self.default_value),
            description: opt_str(self.description),
        }
    }
}

/// An index over some columns of a table.
#[derive(Debug)]
pub struct Index {
    pub name: String,
    pub columns: Vec<String>,
    pub is_unique: bool,
}

pub struct IndexView {
    pub name: Seq<char>,
    pub columns: Seq<Seq<char>>,
    pub is_unique: bool,
}

impl View for Index {
    type V = IndexView;

    open spec fn view(&self) -> IndexView {
        IndexView {
            name: self.name@,
            columns: self.columns@.map_values(|c: String| c@),
            is_unique: self.is_unique,
        }
    }
}

/// A reference from a column of one table to a column of another.
#[derive(Debug)]
pub struct ForeignKey {
    pub constraint_name: String,
    pub column_name: String,
    pub foreign_table: String,
    pub foreign_column: String,
}

pub struct ForeignKeyView {
    pub constraint_name: Seq<char>,
    pub column_name: Seq<char>,
    pub foreign_table: Seq<char>,
    pub foreign_column: Seq<char>,
}

impl View for ForeignKey {
    type V = ForeignKeyView;

    open spec fn view(&self) -> ForeignKeyView {
        ForeignKeyView {
            constraint_name: self.constraint_name@,
            column_name: self.column_name@,
            foreign_table: self.foreign_table@,
            foreign_column: self.foreign_column@,
        }
    }
}

/// A table (or a collection) with its columns, indexes and foreign keys.
#[derive(Debug)]
pub struct Table {
    pub name: String,
    pub columns: Vec<Column>,
    pub indexes: Vec<Index>,
    pub foreign_keys: Vec<ForeignKey>,
    pub description: Option<String>,
}

pub struct TableView {
    pub name: Seq<char>,
    pub columns: Seq<ColumnView>,
    pub indexes: Seq<IndexView>,
    pub foreign_keys: Seq<ForeignKeyView>,
    pub description: Option<Seq<char>>,
}

impl View for Table {
    type V = TableView;

    open spec fn view(&self) -> TableView {
        TableView {
            name: self.name@,
            columns: self.columns@.map_values(|c: Column| c@),
            indexes: self.indexes@.map_values(|i: Index| i@),
            foreign_keys: self.foreign_keys@.map_values(|f: ForeignKey| f@),
            description: opt_str(self.description),
        }
    }
}

/// A database schema: its tables, each under its name.
#[derive(Debug)]
pub struct Schema {
    pub tables: Vec<(String, Table)>,
}

/// The abstract schema: the sequence of (name, table) entries.
pub type SchemaView = Seq<(Seq<char>, TableView)>;

impl View for Schema {
    type V = SchemaView;

    open spec fn view(&self) -> SchemaView {
        self.tables@.map_values(|e: (String, Table)| (e.0@, e.1@))
    }
}

/// No table name occurs twice in the schema.
pub open spec fn names_distinct(s: SchemaView) -> bool {
    forall|i: int, j: int| 0 <= i < s.len() && 0 <= j < s.len() && i != j ==> s[i].0 != s[j].0
}

impl Schema {
    /// A schema maps names to tables: each name occurs once.
    pub open spec fn wf(&self) -> bool {
        names_distinct(self@)
    }
}

/// A query plan: the query text in a dialect, with its explanation and an
/// optional cost estimate in whole units.
#[derive(Debug)]
pub struct QueryPlan {
    pub dialect: DatabaseDialect,
    pub raw_query: String,
    pub explanation: String,
    pub cost: Option<u64>,
}

/// A migration plan: the statement that changes the schema, with its explanation.
#[derive(Debug)]
pub struct MigrationPlan {
    pub dialect: DatabaseDialect,
    pub raw_sql: String,
    pub explanation: String,
}

/// What a translation gives back: a plan, or a request to clarify the prompt.
#[derive(Debug)]
pub enum TranslateResult {
    Plan(QueryPlan),
    ClarificationNeeded { reason: String, suggestions: Vec<String> },
}

/// The outcome of running a query.
#[derive(Debug)]
pub struct ExecutionResult {
    pub success: bool,
    pub data: Option<JsonValue>,
    pub error: Option<String>,
    pub execution_time_ms: u64,
}

impl ExecutionResult {
    /// The outcome of a query that ran to completion without rows to show, or
    /// failed with the error's text.
    pub fn from_outcome(error: Option<String>, execution_time_ms: u64) -> (r: Self)
        ensures
            r.success == (error is None),
            r.data is None,
            opt_str(r.error) == opt_str(error),
            r.execution_time_ms == execution_time_ms,
    {
        let success = error.is_none();
        ExecutionResult { success, data: None, error, execution_time_ms }
    }

    /// The outcome of a query that returned these documents.
    pub fn with_rows(rows: Vec<JsonValue>, execution_time_ms: u64) -> (r: Self)
        ensures
            r.success,
            r.data matches Some(d) && d == JsonValue::Array(rows),
            r.error is None,
            r.execution_time_ms == execution_time_ms,
    {
        ExecutionResult {
            success: true,
            data: Some(JsonValue::Array(rows)),
            error: None,
            execution_time_ms,
        }
    }
}

/// Why a model's reply could not be turned into a plan.
#[derive(Debug)]
pub struct TranslateError {
    pub message: String,
}

/// The text `EXPLAIN <query>` that checks a query without running it.
pub open spec fn explain_spec(query: Seq<char>) -> Seq<char> {
    "EXPLAIN "@ + query
}

/// Builds the statement that explains a query instead of running it.
pub fn explain_query(query: &str) -> (r: String)
    ensures
        r@ == explain_spec(query@),
{
    let mut r = String::from_str("EXPLAIN ");
    r.append(query);
    r
}

} // verus!
