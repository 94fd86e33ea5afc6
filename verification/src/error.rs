//! The errors of the library, each carrying the text of the error that caused it.
use vstd::prelude::*;

use crate::text::owned;

verus! {

/// What went wrong in moving data between SQLite and a data frame.
#[derive(Debug)]
pub enum PoliteError {
    /// Loading query results into Arrow failed.
    Arrow { db_path: String, source: String },
    /// Turning Arrow batches into a data frame failed.
    ArrowToPolars { source: String },
    /// Opening the database failed.
    Connect { db_path: String, source: String },
    /// Building a data frame failed.
    DataFrame { source: String },
    /// A statement failed.
    Exec { sql: String, source: String },
    /// `load_dataframe` failed; `source` is the text of the underlying error.
    Load { db_path: String, source: String },
    /// The query was refused before it ran.
    Query { db_path: String, source: String },
    /// Writing a data frame to a table failed.
    Save { db_path: String, table_name: String, source: String },
    /// Any other SQLite error.
    Sqlite { source: String },
}

/// The view of a `PoliteError`: the same variants over character sequences.
pub enum PoliteErrorView {
    Arrow { db_path: Seq<char>, source: Seq<char> },
    ArrowToPolars { source: Seq<char> },
    Connect { db_path: Seq<char>, source: Seq<char> },
    DataFrame { source: Seq<char> },
    Exec { sql: Seq<char>, source: Seq<char> },
    Load { db_path: Seq<char>, source: Seq<char> },
    Query { db_path: Seq<char>, source: Seq<char> },
    Save { db_path: Seq<char>, table_name: Seq<char>, source: Seq<char> },
    Sqlite { source: Seq<char> },
}

impl View for PoliteError {
    type V = PoliteErrorView;

    open spec fn view(&self) -> PoliteErrorView {
        match self {
            PoliteError::Arrow { db_path, source } => PoliteErrorView::Arrow {
                db_path: db_path@,
                source: source@,
            },
            PoliteError::ArrowToPolars { source } => PoliteErrorView::ArrowToPolars {
                source: source@,
            },
            PoliteError::Connect { db_path, source } => PoliteErrorView::Connect {
                db_path: db_path@,
                source: source@,
            },
            PoliteError::DataFrame { source } => PoliteErrorView::DataFrame { source: source@ },
            PoliteError::Exec { sql, source } => PoliteErrorView::Exec {
                sql: sql@,
                source: source@,
            },
            PoliteError::Load { db_path, source } => PoliteErrorView::Load {
                db_path: db_path@,
                source: source@,
            },
            PoliteError::Query { db_path, source } => PoliteErrorView::Query {
                db_path: db_path@,
                source: source@,
            },
            PoliteError::Save { db_path, table_name, source } => PoliteErrorView::Save {
                db_path: db_path@,
                table_name: table_name@,
                source: source@,
            },
            PoliteError::Sqlite { source } => PoliteErrorView::Sqlite { source: source@ },
        }
    }
}

/// The text an error is shown with.
pub open spec fn polite_message(e: PoliteErrorView) -> Seq<char> {
    match e {
        PoliteErrorView::Arrow { db_path, source } => "ConnectorX Arrow conversion failed on "@
            + db_path + ": "@ + source,
        PoliteErrorView::ArrowToPolars { source } => "Arrow \u{2192} Polars conversion failed: "@
            + source,
        PoliteErrorView::Connect { db_path, source } => "Failed to connect to "@ + db_path + ": "@
            + source,
        PoliteErrorView::DataFrame { source } => "Failed to convert Arrow to DataFrame: "@
            + source,
        PoliteErrorView::Exec { sql, source } => "Failed to execute SQL: "@ + sql + ": "@ + source,
        PoliteErrorView::Load { db_path, source } => "Failed to load DataFrame from "@ + db_path
            + ": "@ + source,
        PoliteErrorView::Query { db_path, source } => "Failed to run query on "@ + db_path + ": "@
            + source,
        PoliteErrorView::Save { db_path, table_name, source } => "Failed to save DataFrame to table '"@
            + table_name + "' in "@ + db_path + ": "@ + source,
        PoliteErrorView::Sqlite { source } => "SQLite error: "@ + source,
    }
}

impl PoliteError {
    /// The text this error is shown with.
    pub fn message(&self) -> (r: String)
        ensures
            r@ == polite_message(self@),
    {
        let mut r = String::new();
        match self {
            PoliteError::Arrow { db_path, source } => {
                r.append("ConnectorX Arrow conversion failed on ");
                r.append(db_path.as_str());
                r.append(": ");
                r.append(source.as_str());
            },
            PoliteError::ArrowToPolars { source } => {
                r.append("Arrow \u{2192} Polars conversion failed: ");
                r.append(source.as_str());
            },
            PoliteError::Connect { db_path, source } => {
                r.append("Failed to connect to ");
                r.append(db_path.as_str());
                r.append(": ");
                r.append(source.as_str());
            },
            PoliteError::DataFrame { source } => {
                r.append("Failed to convert Arrow to DataFrame: ");
                r.append(source.as_str());
            },
            PoliteError::Exec { sql, source } => {
                r.append("Failed to execute SQL: ");
                r.append(sql.as_str());
                r.append(": ");
                r.append(source.as_str());
            },
            PoliteError::Load { db_path, source } => {
                r.append("Failed to load DataFrame from ");
                r.append(db_path.as_str());
                r.append(": ");
                r.append(source.as_str());
            },
            PoliteError::Query { db_path, source } => {
                r.append("Failed to run query on ");
                r.append(db_path.as_str());
                r.append(": ");
                r.append(source.as_str());
            },
            PoliteError::Save { db_path, table_name, source } => {
                r.append("Failed to save DataFrame to table '");
                r.append(table_name.as_str());
                r.append("' in ");
                r.append(db_path.as_str());
                r.append(": ");
                r.append(source.as_str());
            },
            PoliteError::Sqlite { source } => {
                r.append("SQLite error: ");
                r.append(source.as_str());
            },
        }
        r
    }
}

/// What went wrong in splitting a query or loading it into Arrow.
#[derive(Debug)]
pub enum OutError {
    /// The source type has no loader here; carries the type's printed name.
    SourceNotSupport(String),
    /// connectorx refused or could not rewrite the query; carries its error text.
    ConnectorXInternalError(String),
    /// SQLite failed; carries its error text.
    SQLiteError(String),
    /// Anything else; carries the error text.
    Other(String),
}

/// The view of an `OutError`.
pub enum OutErrorView {
    SourceNotSupport(Seq<char>),
    ConnectorXInternalError(Seq<char>),
    SQLiteError(Seq<char>),
    Other(Seq<char>),
}

impl View for OutError {
    type V = OutErrorView;

    open spec fn view(&self) -> OutErrorView {
        match self {
            OutError::SourceNotSupport(s) => OutErrorView::SourceNotSupport(s@),
            OutError::ConnectorXInternalError(s) => OutErrorView::ConnectorXInternalError(s@),
            OutError::SQLiteError(s) => OutErrorView::SQLiteError(s@),
            OutError::Other(s) => OutErrorView::Other(s@),
        }
    }
}

/// The text an `OutError` is shown with.
pub open spec fn out_message(e: OutErrorView) -> Seq<char> {
    match e {
        OutErrorView::SourceNotSupport(s) => "Source "@ + s + " not supported."@,
        OutErrorView::ConnectorXInternalError(s) => s,
        OutErrorView::SQLiteError(s) => s,
        OutErrorView::Other(s) => s,
    }
}

impl OutError {
    /// The text this error is shown with.
    pub fn message(&self) -> (r: String)
        ensures
            r@ == out_message(self@),
    {
        match self {
            OutError::SourceNotSupport(s) => {
                let mut r = String::new();
                r.append("Source ");
                r.append(s.as_str());
                r.append(" not supported.");
                r
            },
            OutError::ConnectorXInternalError(s) => owned(s.as_str()),
            OutError::SQLiteError(s) => owned(s.as_str()),
            OutError::Other(s) => owned(s.as_str()),
        }
    }
}

} // verus!
