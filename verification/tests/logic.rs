use polite::cli::{is_select, parse_args, sql_source, trim_start, CliCommand, SqlSource};
use polite::connect_sqlite;
use polite::constants::{CONNECTORX_PROTOCOL, RECORD_BATCH_SIZE, SECONDS_IN_DAY};
use polite::error::{OutError, PoliteError};
use polite::execute_query;
use polars::prelude::{Column as PlColumn, DataFrame};
use polite::frame::SqlValue;
use polite::dataframe::WriteStatement;
use polite::from_dataframe;
use polite::get_arrow::{get_arrow, new_record_batch_iter};
use polite::partition::{
    get_col_range, get_part_query, partition, partition_ranges, range_value, split_fits,
    PartitionQuery, RangeCell,
};
use polite::source::{source_type_from_name, source_type_name, CXQuery, SourceConn, SourceType};
use polite::statements::{create_table_statement, insert_statement};
use polite::text::{join, starts_with, str_eq};
use polite::types::{dtype_for_decl_type, schema_from_sqlite, sql_type_name, ColumnDecl, DataType};
use std::cell::RefCell;

fn sqlite_conn(path: &str) -> SourceConn {
    SourceConn::new(SourceType::SQLite, &format!("sqlite://{}", path), "binary")
}

fn int_frame() -> DataFrame {
    DataFrame::new(vec![
        PlColumn::new("id".into(), &[Some(1i64), None, Some(3)]),
        PlColumn::new("name".into(), &[Some("Alice"), Some("Bob"), None]),
        PlColumn::new("score".into(), &[Some(1.5f64), None, Some(0.25)]),
        PlColumn::new("flag".into(), &[true, false, true]),
    ])
    .unwrap()
}

#[test]
fn ranges_split_evenly() {
    assert_eq!(partition_ranges(0, 99, 4), vec![(0, 25), (25, 50), (50, 75), (75, 100)]);
}

#[test]
fn ranges_last_part_takes_remainder() {
    assert_eq!(partition_ranges(1, 10, 3), vec![(1, 4), (4, 7), (7, 11)]);
}

#[test]
fn ranges_more_parts_than_values() {
    assert_eq!(partition_ranges(5, 5, 3), vec![(5, 5), (5, 5), (5, 6)]);
}

#[test]
fn ranges_single_part() {
    assert_eq!(partition_ranges(-7, 7, 1), vec![(-7, 8)]);
}

#[test]
fn ranges_reversed_bounds_round_toward_zero() {
    assert_eq!(partition_ranges(10, 3, 2), vec![(10, 7), (7, 4)]);
}

#[test]
fn ranges_count_beyond_i64_gives_none() {
    assert_eq!(partition_ranges(0, 10, usize::MAX), vec![]);
}

#[test]
fn ranges_extremes_of_i64() {
    // The widest range whose width still fits in an i64.
    let half: i64 = i64::MAX / 2;
    assert_eq!(partition_ranges(i64::MIN, -2, 2), vec![(i64::MIN, i64::MIN + half), (i64::MIN + half, -1)]);
}

#[test]
fn ranges_cover_every_value_once() {
    let ranges = partition_ranges(-13, 101, 7);
    for v in -13i64..=101 {
        let holding = ranges.iter().filter(|(lo, hi)| *lo <= v && v < *hi).count();
        assert_eq!(holding, 1);
    }
}

#[test]
fn split_fits_refuses_overflow() {
    assert!(split_fits(0, 10, 3));
    assert!(!split_fits(0, 10, 0));
    assert!(!split_fits(i64::MIN, i64::MAX, 2));
    assert!(!split_fits(0, i64::MAX, 2));
    assert!(split_fits(0, i64::MAX - 1, 2));
    assert!(split_fits(-1, i64::MAX - 2, 2));
}

fn no_open(_t: u32, _p: &str) -> (u32, Result<(), String>) {
    panic!("the database is not opened")
}

fn no_fetch(t: u32, _c: &(), _q: &str) -> (u32, Result<RangeCell, String>) {
    (t, Err("not used".to_string()))
}

#[test]
fn partition_given_range() {
    let part = PartitionQuery::new("SELECT * FROM t", "id", Some(0), Some(99), 4);
    let (opens, queries) = partition(0u32, &part, &sqlite_conn("/tmp/db.sqlite"), &no_open, &no_fetch);
    assert_eq!(opens, 0);
    let queries = queries.unwrap();
    assert_eq!(queries.len(), 4);
    for (q, (lo, hi)) in queries.iter().zip([(0, 25), (25, 50), (50, 75), (75, 100)]) {
        match q {
            CXQuery::Wrapped(text) => {
                assert!(text.contains(&format!("{} <= CXTMPTAB_PART.id", lo)));
                assert!(text.contains(&format!("CXTMPTAB_PART.id < {}", hi)));
            }
            CXQuery::Naked(_) => panic!("a part query is wrapped"),
        }
    }
}

#[test]
fn partition_partially_specified() {
    let part = PartitionQuery::new("SELECT * FROM t", "id", Some(0), None, 4);
    let (opens, r) = partition(0u32, &part, &sqlite_conn("/tmp/db.sqlite"), &no_open, &no_fetch);
    assert_eq!(opens, 0);
    match r {
        Err(OutError::Other(m)) => assert_eq!(m, "partition_query range can not be partially specified"),
        _ => panic!("expected a refusal"),
    }
}

#[test]
fn partition_looks_up_range() {
    let opened = RefCell::new(Vec::new());
    let open = |t: u32, p: &str| -> (u32, Result<u8, String>) {
        opened.borrow_mut().push(p.to_string());
        (t + 1, Ok(7))
    };
    let fetch = |t: u32, _c: &u8, q: &str| -> (u32, Result<RangeCell, String>) {
        if q.to_lowercase().contains("min(") {
            (t + 10, Ok(RangeCell::Integer(1)))
        } else {
            (t + 10, Ok(RangeCell::Real(10)))
        }
    };
    let part = PartitionQuery::new("SELECT * FROM t", "id", None, None, 3);
    let (opens, queries) = partition(0u32, &part, &sqlite_conn("/tmp/db.sqlite"), &open, &fetch);
    let queries = queries.unwrap();
    assert_eq!(opens, 21);
    assert_eq!(opened.borrow().clone(), vec!["/tmp/db.sqlite".to_string()]);
    assert_eq!(queries.len(), 3);
    assert!(queries[2].as_str().contains("CXTMPTAB_PART.id < 11"));
}

#[test]
fn partition_looked_up_range_too_wide() {
    let open = |t: u32, _p: &str| -> (u32, Result<u8, String>) { (t + 1, Ok(0)) };
    let fetch = |t: u32, _c: &u8, q: &str| -> (u32, Result<RangeCell, String>) {
        if q.to_lowercase().contains("min(") {
            (t + 10, Ok(RangeCell::Integer(i64::MIN)))
        } else {
            (t + 10, Ok(RangeCell::Integer(i64::MAX)))
        }
    };
    let part = PartitionQuery::new("SELECT * FROM t", "id", None, None, 3);
    match partition(0u32, &part, &sqlite_conn("/tmp/db.sqlite"), &open, &fetch).1 {
        Err(OutError::Other(m)) => assert_eq!(m, "partition_query range can not be split into partitions within i64"),
        _ => panic!("expected a refusal"),
    }
}

#[test]
fn col_range_refuses_text() {
    let open = |t: u32, _p: &str| -> (u32, Result<u8, String>) { (t + 1, Ok(0)) };
    let fetch = |t: u32, _c: &u8, _q: &str| -> (u32, Result<RangeCell, String>) { (t + 10, Ok(RangeCell::Text)) };
    let (calls, r) = get_col_range(0u32, &sqlite_conn("/tmp/db.sqlite"), "SELECT * FROM t", "id", &open, &fetch);
    assert_eq!(calls, 11);
    match r {
        Err(OutError::Other(m)) => assert_eq!(m, "Partition can only be done on integer columns"),
        _ => panic!("expected a refusal"),
    }
}

#[test]
fn col_range_null_is_zero() {
    let open = |t: u32, _p: &str| -> (u32, Result<u8, String>) { (t + 1, Ok(0)) };
    let fetch = |t: u32, _c: &u8, q: &str| -> (u32, Result<RangeCell, String>) {
        if q.to_lowercase().contains("min(") {
            (t + 10, Ok(RangeCell::Null))
        } else {
            (t + 10, Ok(RangeCell::Integer(42)))
        }
    };
    let (calls, r) = get_col_range(0u32, &sqlite_conn("/tmp/db.sqlite"), "SELECT * FROM t", "id", &open, &fetch);
    assert_eq!(calls, 21);
    assert_eq!(r.ok(), Some((0, 42)));
}

#[test]
fn partition_zero_count_looked_up() {
    let open = |t: u32, _p: &str| -> (u32, Result<u8, String>) { (t + 1, Ok(0)) };
    let fetch = |t: u32, _c: &u8, q: &str| -> (u32, Result<RangeCell, String>) {
        if q.to_lowercase().contains("min(") {
            (t + 10, Ok(RangeCell::Integer(1)))
        } else {
            (t + 10, Ok(RangeCell::Integer(9)))
        }
    };
    let part = PartitionQuery::new("SELECT * FROM t", "id", None, None, 0);
    match partition(0u32, &part, &sqlite_conn("/tmp/db.sqlite"), &open, &fetch).1 {
        Err(OutError::Other(m)) => assert_eq!(m, "partition_query range can not be split into partitions within i64"),
        _ => panic!("expected a refusal"),
    }
}

#[test]
fn partition_zero_count_partially_specified() {
    let part = PartitionQuery::new("SELECT * FROM t", "id", None, Some(5), 0);
    let (calls, r) = partition(0u32, &part, &sqlite_conn("/tmp/db.sqlite"), &no_open, &no_fetch);
    assert_eq!(calls, 0);
    match r {
        Err(OutError::Other(m)) => assert_eq!(m, "partition_query range can not be partially specified"),
        _ => panic!("expected a refusal"),
    }
}

#[test]
fn col_range_min_query_error() {
    let open = |t: u32, _p: &str| -> (u32, Result<u8, String>) { (t + 1, Ok(0)) };
    let fetch = |t: u32, _c: &u8, _q: &str| -> (u32, Result<RangeCell, String>) { (t + 10, Err("no such table".to_string())) };
    let (calls, r) = get_col_range(0u32, &sqlite_conn("/tmp/db.sqlite"), "SELECT * FROM t", "id", &open, &fetch);
    assert_eq!(calls, 11);
    match r {
        Err(OutError::SQLiteError(m)) => assert_eq!(m, "no such table"),
        _ => panic!("expected the query error"),
    }
}

#[test]
fn col_range_open_error() {
    let open = |t: u32, _p: &str| -> (u32, Result<u8, String>) { (t + 1, Err("cannot open".to_string())) };
    let fetch = |t: u32, _c: &u8, _q: &str| -> (u32, Result<RangeCell, String>) { (t + 10, Ok(RangeCell::Null)) };
    match get_col_range(0u32, &sqlite_conn("/tmp/db.sqlite"), "SELECT * FROM t", "id", &open, &fetch).1 {
        Err(OutError::SQLiteError(m)) => assert_eq!(m, "cannot open"),
        _ => panic!("expected the open error"),
    }
}

#[test]
fn range_values_by_cell() {
    assert_eq!(range_value(&RangeCell::Integer(5)).ok(), Some(5));
    assert_eq!(range_value(&RangeCell::Real(-3)).ok(), Some(-3));
    assert_eq!(range_value(&RangeCell::Null).ok(), Some(0));
    assert!(range_value(&RangeCell::Blob).is_err());
}

#[test]
fn part_query_is_wrapped() {
    let q = get_part_query(&sqlite_conn("/tmp/db.sqlite"), "SELECT a FROM t", "a", 3, 9).unwrap();
    match q {
        CXQuery::Wrapped(text) => {
            assert!(text.contains("SELECT a FROM t"));
            assert!(text.contains("3 <= CXTMPTAB_PART.a"));
            assert!(text.contains("CXTMPTAB_PART.a < 9"));
        }
        CXQuery::Naked(_) => panic!("expected a wrapped query"),
    }
}

#[test]
fn part_query_refuses_two_statements() {
    let r = get_part_query(&sqlite_conn("/tmp/db.sqlite"), "SELECT 1; SELECT 2", "a", 0, 1);
    assert!(matches!(r, Err(OutError::ConnectorXInternalError(_))));
}

#[test]
fn parse_sqlite_connection() {
    let c = SourceConn::parse("sqlite:///tmp/x.db").ok().unwrap();
    assert_eq!(c.ty(), SourceType::SQLite);
    assert_eq!(c.conn(), "sqlite:///tmp/x.db");
    assert_eq!(c.proto(), "binary");
}

#[test]
fn parse_postgres_connection_with_protocol() {
    let c = SourceConn::parse("postgresql://user@host:5432/db?cxprotocol=csv").ok().unwrap();
    assert_eq!(c.ty(), SourceType::Postgres);
    assert_eq!(c.proto(), "csv");
    assert!(!c.conn().contains("cxprotocol"));
}

#[test]
fn parse_unknown_and_bad_connection() {
    assert_eq!(SourceConn::parse("ftp://host/x").ok().unwrap().ty(), SourceType::Unknown);
    assert!(SourceConn::parse("no scheme here").is_err());
}

#[test]
fn set_protocol_keeps_url() {
    let mut c = sqlite_conn("/tmp/a.db");
    c.set_protocol("cursor");
    assert_eq!(c.proto(), "cursor");
    assert_eq!(c.conn(), "sqlite:///tmp/a.db");
}

#[test]
fn source_type_names_round_trip() {
    for ty in [
        SourceType::Postgres,
        SourceType::SQLite,
        SourceType::MySQL,
        SourceType::MsSQL,
        SourceType::Oracle,
        SourceType::BigQuery,
        SourceType::DuckDB,
        SourceType::Trino,
        SourceType::Unknown,
    ] {
        assert_eq!(source_type_from_name(source_type_name(ty)), ty);
    }
    assert_eq!(source_type_name(SourceType::SQLite), "SQLite");
    assert_eq!(source_type_from_name("Cassandra"), SourceType::Unknown);
}

#[test]
fn get_arrow_refuses_other_sources() {
    let conn = SourceConn::new(SourceType::Postgres, "postgresql://h/db", "binary");
    let dispatch = |t: u32, _p: &str, _q: &Vec<CXQuery>, _o: Option<String>| -> (u32, Result<u8, OutError>) { (t + 1, Ok(1)) };
    let (loads, r) = get_arrow(0u32, &conn, None, &vec![CXQuery::naked("SELECT 1")], None, &dispatch);
    assert_eq!(loads, 0);
    match r {
        Err(e) => {
            assert!(matches!(&e, OutError::SourceNotSupport(n) if n == "Postgres"));
            assert_eq!(e.message(), "Source Postgres not supported.");
        }
        Ok(_) => panic!("expected a refusal"),
    }
}

#[test]
fn get_arrow_hands_sqlite_path() {
    let dispatch = |t: u32, p: &str, q: &Vec<CXQuery>, o: Option<String>| -> (u32, Result<String, OutError>) {
        (t + 1, Ok(format!("{}|{}|{:?}", p, q.len(), o)))
    };
    let (loads, r) = get_arrow(0u32, &sqlite_conn("/data/x.db"), Some("origin".to_string()), &vec![CXQuery::naked("SELECT 1")], None, &dispatch);
    assert_eq!(loads, 1);
    assert_eq!(r.ok().unwrap(), "/data/x.db|1|Some(\"origin\")");
}

#[test]
fn record_batch_iter_hands_sqlite_path() {
    let start = |p: &str, q: &Vec<CXQuery>, _o: Option<String>, n: usize| -> String { format!("{}|{}|{}", p, q.len(), n) };
    let r = new_record_batch_iter(&sqlite_conn("rel.db"), None, &vec![], RECORD_BATCH_SIZE, None, &start);
    assert_eq!(r, "rel.db|0|65536");
}

#[test]
fn get_arrow_same_outcome_with_or_without_pre_execution() {
    let dispatch = |t: u32, p: &str, q: &Vec<CXQuery>, o: Option<String>| -> (u32, Result<String, OutError>) {
        (t + 1, Ok(format!("{}|{}|{:?}", p, q.len(), o)))
    };
    let queries = vec![CXQuery::naked("SELECT 1")];
    let pre = vec!["PRAGMA foreign_keys = ON".to_string()];
    let with = get_arrow(3u32, &sqlite_conn("/data/x.db"), None, &queries, Some(pre.as_slice()), &dispatch);
    let without = get_arrow(3u32, &sqlite_conn("/data/x.db"), None, &queries, None, &dispatch);
    assert_eq!(with.0, without.0);
    assert_eq!(with.1.ok(), without.1.ok());
}

#[test]
fn record_batches_same_with_or_without_pre_execution() {
    let start = |p: &str, q: &Vec<CXQuery>, _o: Option<String>, n: usize| -> String { format!("{}|{}|{}", p, q.len(), n) };
    let pre = vec!["PRAGMA foreign_keys = ON".to_string()];
    let queries = vec![CXQuery::naked("SELECT 1")];
    let with = new_record_batch_iter(&sqlite_conn("rel.db"), None, &queries, 10, Some(pre.as_slice()), &start);
    let without = new_record_batch_iter(&sqlite_conn("rel.db"), None, &queries, 10, None, &start);
    assert_eq!(with, without);
}

#[test]
fn partition_by_lookup_matches_given_range() {
    let open = |t: u32, _p: &str| -> (u32, Result<u8, String>) { (t + 1, Ok(0)) };
    let fetch = |t: u32, _c: &u8, q: &str| -> (u32, Result<RangeCell, String>) {
        if q.to_lowercase().contains("min(") {
            (t + 10, Ok(RangeCell::Integer(-7)))
        } else {
            (t + 10, Ok(RangeCell::Integer(30)))
        }
    };
    let conn = sqlite_conn("/tmp/db.sqlite");
    let (lookup_end, found) = get_col_range(0u32, &conn, "SELECT * FROM t", "id", &open, &fetch);
    let (lo, hi) = found.unwrap();
    let looked_up = PartitionQuery::new("SELECT * FROM t", "id", None, None, 4);
    let (split_end, by_lookup) = partition(0u32, &looked_up, &conn, &open, &fetch);
    assert_eq!(split_end, lookup_end);
    let given = PartitionQuery::new("SELECT * FROM t", "id", Some(lo), Some(hi), 4);
    let (_, by_given) = partition(0u32, &given, &conn, &no_open_u8, &fetch);
    let texts = |qs: Vec<CXQuery>| -> Vec<String> { qs.iter().map(|q| q.as_str().to_string()).collect() };
    assert_eq!(texts(by_lookup.unwrap()), texts(by_given.unwrap()));
}

fn no_open_u8(_t: u32, _p: &str) -> (u32, Result<u8, String>) {
    panic!("the database is not opened")
}

#[test]
fn constants_values() {
    assert_eq!(RECORD_BATCH_SIZE, 65536);
    assert_eq!(SECONDS_IN_DAY, 86400);
    assert_eq!(CONNECTORX_PROTOCOL, "cxprotocol");
}

#[test]
fn decl_types_map_to_dtypes() {
    assert_eq!(dtype_for_decl_type(Some("INTEGER")), DataType::Int64);
    assert_eq!(dtype_for_decl_type(Some("REAL")), DataType::Float64);
    assert_eq!(dtype_for_decl_type(Some("TEXT")), DataType::String);
    assert_eq!(dtype_for_decl_type(Some("BLOB")), DataType::String);
    assert_eq!(dtype_for_decl_type(Some("integer")), DataType::String);
    assert_eq!(dtype_for_decl_type(None), DataType::String);
}

#[test]
fn dtypes_map_to_sql_types() {
    assert_eq!(sql_type_name(DataType::Int64), "INTEGER");
    assert_eq!(sql_type_name(DataType::Float64), "REAL");
    assert_eq!(sql_type_name(DataType::String), "TEXT");
    assert_eq!(sql_type_name(DataType::Other), "TEXT");
    for d in [DataType::Int64, DataType::Float64, DataType::String] {
        assert_eq!(dtype_for_decl_type(Some(sql_type_name(d))), d);
    }
    assert_eq!(dtype_for_decl_type(Some(sql_type_name(DataType::Other))), DataType::String);
}

#[test]
fn schema_keeps_first_position_and_last_type() {
    let decls = vec![
        ColumnDecl { name: "a".to_string(), decl_type: Some("INTEGER".to_string()) },
        ColumnDecl { name: "b".to_string(), decl_type: Some("REAL".to_string()) },
        ColumnDecl { name: "a".to_string(), decl_type: Some("TEXT".to_string()) },
        ColumnDecl { name: "c".to_string(), decl_type: None },
    ];
    let schema = schema_from_sqlite(&decls);
    let got: Vec<(String, DataType)> = schema.into_iter().map(|f| (f.name, f.dtype)).collect();
    assert_eq!(
        got,
        vec![
            ("a".to_string(), DataType::String),
            ("b".to_string(), DataType::Float64),
            ("c".to_string(), DataType::String),
        ]
    );
}

#[test]
fn create_statement_for_frame() {
    assert_eq!(
        create_table_statement("people", &int_frame()),
        "CREATE TABLE IF NOT EXISTS people (id INTEGER, name TEXT, score REAL, flag TEXT)"
    );
}

#[test]
fn create_statement_without_columns() {
    let empty = DataFrame::empty();
    assert_eq!(create_table_statement("t", &empty), "CREATE TABLE IF NOT EXISTS t ()");
}

#[test]
fn insert_statement_placeholders() {
    assert_eq!(insert_statement("t", 3), "INSERT INTO t VALUES (?, ?, ?)");
    assert_eq!(insert_statement("t", 1), "INSERT INTO t VALUES (?)");
    assert_eq!(insert_statement("t", 0), "INSERT INTO t VALUES ()");
}

fn copy_values(vals: &[SqlValue]) -> Vec<SqlValue> {
    vals.iter()
        .map(|v| match v {
            SqlValue::Null => SqlValue::Null,
            SqlValue::Integer(i) => SqlValue::Integer(*i),
            SqlValue::Real(b) => SqlValue::Real(*b),
            SqlValue::Text(t) => SqlValue::Text(t.clone()),
        })
        .collect()
}

#[test]
fn from_dataframe_hands_row_values_by_type() {
    let rows = RefCell::new(Vec::<Vec<SqlValue>>::new());
    let write = |c: u32, st: &WriteStatement| -> (u32, Result<(), String>) {
        if let WriteStatement::Insert(_, vals) = st {
            rows.borrow_mut().push(copy_values(vals));
        }
        (c + 1, Ok(()))
    };
    let (ran, result) = from_dataframe(0u32, "people", &int_frame(), &write);
    result.unwrap();
    assert_eq!(ran, 5);
    let rows = rows.borrow();
    assert_eq!(rows.len(), 3);
    let row0 = &rows[0];
    assert!(matches!(row0[0], SqlValue::Integer(1)));
    assert!(matches!(&row0[1], SqlValue::Text(s) if s == "Alice"));
    assert!(matches!(row0[2], SqlValue::Real(b) if f64::from_bits(b) == 1.5));
    assert!(matches!(row0[3], SqlValue::Null));
    let row1 = &rows[1];
    assert!(matches!(row1[0], SqlValue::Null));
    assert!(matches!(&row1[1], SqlValue::Text(s) if s == "Bob"));
    assert!(matches!(row1[2], SqlValue::Null));
    let row2 = &rows[2];
    assert!(matches!(row2[0], SqlValue::Integer(3)));
    assert!(matches!(row2[1], SqlValue::Null));
    assert!(matches!(row2[2], SqlValue::Real(b) if f64::from_bits(b) == 0.25));
}

fn describe(st: &WriteStatement) -> String {
    match st {
        WriteStatement::Create(sql) => format!("create {}", sql),
        WriteStatement::Prepare(sql) => format!("prepare {}", sql),
        WriteStatement::Insert(sql, vals) => format!("insert {} with {}", sql, vals.len()),
    }
}

#[test]
fn from_dataframe_runs_statements_in_order() {
    let log = RefCell::new(Vec::<String>::new());
    let write = |c: u32, st: &WriteStatement| -> (u32, Result<(), String>) {
        log.borrow_mut().push(describe(st));
        (c + 1, Ok(()))
    };
    let (ran, result) = from_dataframe(0u32, "people", &int_frame(), &write);
    result.unwrap();
    assert_eq!(ran, 5);
    assert_eq!(
        log.borrow().clone(),
        vec![
            "create CREATE TABLE IF NOT EXISTS people (id INTEGER, name TEXT, score REAL, flag TEXT)".to_string(),
            "prepare INSERT INTO people VALUES (?, ?, ?, ?)".to_string(),
            "insert INSERT INTO people VALUES (?, ?, ?, ?) with 4".to_string(),
            "insert INSERT INTO people VALUES (?, ?, ?, ?) with 4".to_string(),
            "insert INSERT INTO people VALUES (?, ?, ?, ?) with 4".to_string(),
        ]
    );
}

#[test]
fn from_dataframe_stops_at_failing_row() {
    let write = |c: u32, st: &WriteStatement| -> (u32, Result<(), String>) {
        // The statement run as number 3 (the second row) fails.
        match st {
            WriteStatement::Insert(..) if c == 3 => (c + 1, Err("constraint failed".to_string())),
            _ => (c + 1, Ok(())),
        }
    };
    let (ran, result) = from_dataframe(0u32, "people", &int_frame(), &write);
    let err = result.unwrap_err();
    assert_eq!(ran, 4);
    match &err {
        PoliteError::Save { db_path, table_name, source } => {
            assert_eq!(db_path, "<connection>");
            assert_eq!(table_name, "people");
            assert_eq!(source, "constraint failed");
        }
        _ => panic!("expected a Save error"),
    }
    assert_eq!(
        err.message(),
        "Failed to save DataFrame to table 'people' in <connection>: constraint failed"
    );
}

#[test]
fn from_dataframe_create_failure() {
    let write = |c: u32, st: &WriteStatement| -> (u32, Result<(), String>) {
        match st {
            WriteStatement::Create(_) => (c + 1, Err("readonly".to_string())),
            _ => panic!("not reached"),
        }
    };
    let (ran, result) = from_dataframe(0u32, "t", &int_frame(), &write);
    assert_eq!(ran, 1);
    assert!(matches!(result.unwrap_err(), PoliteError::Save { ref source, .. } if source == "readonly"));
}

#[test]
fn from_dataframe_prepare_failure() {
    let write = |c: u32, st: &WriteStatement| -> (u32, Result<(), String>) {
        match st {
            WriteStatement::Create(_) => (c + 1, Ok(())),
            WriteStatement::Prepare(_) => (c + 1, Err("syntax error".to_string())),
            _ => panic!("not reached"),
        }
    };
    let (ran, result) = from_dataframe(0u32, "t", &int_frame(), &write);
    assert_eq!(ran, 2);
    assert!(matches!(result.unwrap_err(), PoliteError::Save { ref source, .. } if source == "syntax error"));
}

#[test]
fn connect_defaults_to_memory() {
    let open = |p: &str| -> Result<String, String> { Ok(p.to_string()) };
    assert_eq!(connect_sqlite(None, &open).ok().unwrap(), ":memory:");
    assert_eq!(connect_sqlite(Some("x.db"), &open).ok().unwrap(), "x.db");
}

#[test]
fn connect_error_carries_path() {
    let open = |_p: &str| -> Result<u8, String> { Err("unable to open database file".to_string()) };
    let err = connect_sqlite(Some("/no/such/dir/db.sqlite"), &open).err().unwrap();
    assert_eq!(err.message(), "Failed to connect to /no/such/dir/db.sqlite: unable to open database file");
}

#[test]
fn execute_error_carries_sql() {
    let execute = |c: u32, _s: &str| -> (u32, Result<usize, String>) { (c + 1, Err("no such table: x".to_string())) };
    let (ran, result) = execute_query(0u32, "DROP TABLE x", &execute);
    assert_eq!(ran, 1);
    assert_eq!(result.err().unwrap().message(), "Failed to execute SQL: DROP TABLE x: no such table: x");
    let ok = |c: u32, _s: &str| -> (u32, Result<usize, String>) { (c + 1, Ok(3)) };
    let (ran, result) = execute_query(7u32, "DELETE FROM x", &ok);
    assert_eq!(ran, 8);
    assert_eq!(result.ok(), Some(3));
}

#[test]
fn error_messages() {
    let e = PoliteError::Load { db_path: "a.db".to_string(), source: "boom".to_string() };
    assert_eq!(e.message(), "Failed to load DataFrame from a.db: boom");
    let e = PoliteError::Query { db_path: "a.db".to_string(), source: "bad".to_string() };
    assert_eq!(e.message(), "Failed to run query on a.db: bad");
    let e = PoliteError::Arrow { db_path: "a.db".to_string(), source: "x".to_string() };
    assert_eq!(e.message(), "ConnectorX Arrow conversion failed on a.db: x");
    let e = PoliteError::ArrowToPolars { source: "y".to_string() };
    assert_eq!(e.message(), "Arrow \u{2192} Polars conversion failed: y");
    let e = PoliteError::DataFrame { source: "z".to_string() };
    assert_eq!(e.message(), "Failed to convert Arrow to DataFrame: z");
    let e = PoliteError::Sqlite { source: "w".to_string() };
    assert_eq!(e.message(), "SQLite error: w");
    assert_eq!(OutError::SQLiteError("q".to_string()).message(), "q");
}

#[test]
fn cli_help_requests() {
    let args = |v: &[&str]| v.iter().map(|s| s.to_string()).collect::<Vec<String>>();
    assert!(matches!(parse_args(&args(&["polite"])), CliCommand::Help));
    assert!(matches!(parse_args(&args(&["polite", "--help"])), CliCommand::Help));
    assert!(matches!(parse_args(&args(&["polite", "SELECT 1", "-h"])), CliCommand::Help));
}

#[test]
fn cli_run_requests() {
    let args = |v: &[&str]| v.iter().map(|s| s.to_string()).collect::<Vec<String>>();
    match parse_args(&args(&["polite", "SELECT * FROM t", "my.db"])) {
        CliCommand::Run { sql: SqlSource::Inline(s), db_path: Some(p) } => {
            assert_eq!(s, "SELECT * FROM t");
            assert_eq!(p, "my.db");
        }
        _ => panic!("expected a run"),
    }
    match parse_args(&args(&["polite", "@queries.sql"])) {
        CliCommand::Run { sql: SqlSource::File(f), db_path: None } => assert_eq!(f, "queries.sql"),
        _ => panic!("expected a run from a file"),
    }
    assert!(matches!(sql_source("@"), SqlSource::File(ref f) if f.is_empty()));
}

#[test]
fn select_detection() {
    assert!(is_select("SELECT * FROM t"));
    assert!(is_select("  \n\tselect 1"));
    assert!(is_select("\u{3000}Select x"));
    assert!(is_select("\u{17f}elect 1"));
    assert!(!is_select("INSERT INTO t VALUES (1)"));
    assert!(!is_select("WITH x AS (SELECT 1) SELECT * FROM x"));
    assert!(!is_select(""));
    assert!(!is_select("SELEC"));
    assert_eq!(trim_start("  \t x y "), "x y ");
}

#[test]
fn text_helpers() {
    assert!(str_eq("abc", "abc"));
    assert!(!str_eq("abc", "abd"));
    assert!(starts_with("SELECTED", "SELECT"));
    assert!(!starts_with("SEL", "SELECT"));
    assert_eq!(join(&vec!["a".to_string(), "b".to_string(), "c".to_string()], ", "), "a, b, c");
    assert_eq!(join(&vec![], ", "), "");
}

#[test]
fn trim_start_agrees_with_std_on_every_char() {
    for code in 0u32..=0x10FFFF {
        if let Some(c) = char::from_u32(code) {
            let s = format!("{c}x");
            assert_eq!(trim_start(&s), s.trim_start(), "at U+{code:04X}");
        }
    }
}
