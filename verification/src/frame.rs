//! A polars `DataFrame` as the SQLite bridge reads it: named columns of equal length, each
//! holding 64-bit integers, 64-bit floats (by their bit patterns), strings, or values of another
//! type, any of them possibly null.
use vstd::prelude::*;

use crate::types::DataType;
use polars::prelude::DataFrame;

verus! {

/// The values of one column as the bridge reads them. A float is held by its IEEE-754 bit
/// pattern (`f64::to_bits`); a column of any other type is held by its length alone, as its
/// values are written as NULL.
pub enum ValuesView {
    Int64(Seq<Option<i64>>),
    Float64(Seq<Option<u64>>),
    String(Seq<Option<Seq<char>>>),
    Other(nat),
}

/// The number of values in a column.
pub open spec fn values_len(v: ValuesView) -> nat {
    match v {
        ValuesView::Int64(xs) => xs.len(),
        ValuesView::Float64(xs) => xs.len(),
        ValuesView::String(xs) => xs.len(),
        ValuesView::Other(n) => n,
    }
}

/// The type of a column's values.
pub open spec fn values_dtype(v: ValuesView) -> DataType {
    match v {
        ValuesView::Int64(_) => DataType::Int64,
        ValuesView::Float64(_) => DataType::Float64,
        ValuesView::String(_) => DataType::String,
        ValuesView::Other(_) => DataType::Other,
    }
}

/// The columns of a `DataFrame`, in order, each with its name and values.
pub uninterp spec fn polars_columns(df: DataFrame) -> Seq<(Seq<char>, ValuesView)>;

/// The number of rows of a `DataFrame`.
pub uninterp spec fn polars_height(df: DataFrame) -> nat;

/// Whether every column of `cols` has `height` values.
pub open spec fn all_of_height(cols: Seq<(Seq<char>, ValuesView)>, height: nat) -> bool {
    forall|i: int| 0 <= i < cols.len() ==> values_len(#[trigger] cols[i].1) == height
}

/// A value as SQLite stores it. A REAL is held by its IEEE-754 bit pattern.
#[derive(Debug)]
pub enum SqlValue {
    Null,
    Integer(i64),
    Real(u64),
    Text(String),
}

/// The view of a `SqlValue`.
pub enum SqlValueView {
    Null,
    Integer(i64),
    Real(u64),
    Text(Seq<char>),
}

impl View for SqlValue {
    type V = SqlValueView;

    open spec fn view(&self) -> SqlValueView {
        match self {
            SqlValue::Null => SqlValueView::Null,
            SqlValue::Integer(v) => SqlValueView::Integer(*v),
            SqlValue::Real(b) => SqlValueView::Real(*b),
            SqlValue::Text(s) => SqlValueView::Text(s@),
        }
    }
}

pub open spec fn sql_values_view(vs: Seq<SqlValue>) -> Seq<SqlValueView> {
    vs.map_values(|v: SqlValue| v@)
}

/// The value a column holds at `row`, as it is written to SQLite: its integer, float or text,
/// and NULL for a missing value or a column of another type.
pub open spec fn cell_value(v: ValuesView, row: int) -> SqlValueView {
    match v {
        ValuesView::Int64(xs) => match xs[row] {
            Some(x) => SqlValueView::Integer(x),
            None => SqlValueView::Null,
        },
        ValuesView::Float64(xs) => match xs[row] {
            Some(b) => SqlValueView::Real(b),
            None => SqlValueView::Null,
        },
        ValuesView::String(xs) => match xs[row] {
            Some(s) => SqlValueView::Text(s),
            None => SqlValueView::Null,
        },
        ValuesView::Other(_) => SqlValueView::Null,
    }
}

/// The values of `row`, one per column in order.
pub open spec fn row_view(cols: Seq<(Seq<char>, ValuesView)>, row: int) -> Seq<SqlValueView> {
    cols.map_values(|c: (Seq<char>, ValuesView)| cell_value(c.1, row))
}

/// Calls polars' `DataFrame::width`, the number of columns.
#[verifier::external_body]
pub(crate) fn df_width(df: &DataFrame) -> (r: usize)
    ensures
        r == polars_columns(*df).len(),
{
    df.width()
}

/// Calls polars' `DataFrame::height`, the number of rows, which every column of a `DataFrame`
/// has.
#[verifier::external_body]
pub(crate) fn df_height(df: &DataFrame) -> (r: usize)
    ensures
        r == polars_height(*df),
        all_of_height(polars_columns(*df), r as nat),
{
    df.height()
}

/// Calls polars' `Column::name` on column `i` (`DataFrame::get_columns`).
#[verifier::external_body]
pub(crate) fn df_column_name(df: &DataFrame, i: usize) -> (r: String)
    requires
        i < polars_columns(*df).len(),
    ensures
        r@ == polars_columns(*df)[i as int].0,
{
    df.get_columns()[i].name().to_string()
}

/// Calls polars' `Column::dtype` on column `i` and tells apart `Int64`, `Float64`, `String` and
/// the other types.
#[verifier::external_body]
pub(crate) fn df_column_kind(df: &DataFrame, i: usize) -> (r: DataType)
    requires
        i < polars_columns(*df).len(),
    ensures
        r == values_dtype(polars_columns(*df)[i as int].1),
{
    match df.get_columns()[i].dtype() {
        polars::prelude::DataType::Int64 => DataType::Int64,
        polars::prelude::DataType::Float64 => DataType::Float64,
        polars::prelude::DataType::String => DataType::String,
        _ => DataType::Other,
    }
}

/// Calls polars' `Column::get` on row `row` of column `i` and hands the value over: an integer,
/// a float (by its bits), a string, and NULL for a null or a value of another type.
#[verifier::external_body]
pub(crate) fn df_cell(df: &DataFrame, i: usize, row: usize) -> (r: SqlValue)
    requires
        i < polars_columns(*df).len(),
        row < polars_height(*df),
    ensures
        r@ == cell_value(polars_columns(*df)[i as int].1, row as int),
{
    match df.get_columns()[i].get(row) {
        Ok(polars::prelude::AnyValue::Int64(v)) => SqlValue::Integer(v),
        Ok(polars::prelude::AnyValue::Float64(v)) => SqlValue::Real(v.to_bits()),
        Ok(polars::prelude::AnyValue::String(s)) => SqlValue::Text(s.to_string()),
        Ok(polars::prelude::AnyValue::StringOwned(s)) => SqlValue::Text(s.to_string()),
        _ => SqlValue::Null,
    }
}

/// The values of row `row` of `df`, one per column in order, as they are written to SQLite.
pub(crate) fn row_values(df: &DataFrame, row: usize) -> (r: Vec<SqlValue>)
    requires
        row < polars_height(*df),
    ensures
        sql_values_view(r@) == row_view(polars_columns(*df), row as int),
{
    let n = df_width(df);
    let ghost cols = polars_columns(*df);
    let mut out: Vec<SqlValue> = Vec::new();
    let mut i: usize = 0;
    while i < n
        invariant
            n == cols.len(),
            cols == polars_columns(*df),
            row < polars_height(*df),
            i <= n,
            sql_values_view(out@) =~= row_view(cols.take(i as int), row as int),
        decreases n - i,
    {
        let v = df_cell(df, i, row);
        let ghost before = out@;
        let ghost vv = v@;
        out.push(v);
        assert(sql_values_view(out@) =~= sql_values_view(before).push(vv));
        assert(cols.take(i + 1) =~= cols.take(i as int).push(cols[i as int]));
        i = i + 1;
    }
    assert(cols.take(n as int) =~= cols);
    out
}

} // verus!
