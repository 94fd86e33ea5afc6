use connectorx::destinations::arrow::ArrowDestination;
use connectorx::prelude::Dispatcher;
use connectorx::errors::ConnectorXOutError;
use connectorx::sources::sqlite::SQLiteSource;
use connectorx::transports::SQLiteArrowTransport;
use polars::prelude::{Column as PlColumn, DataFrame, DataType as PlDataType};
use polite::cli::{parse_args, run_command, CliCommand, CliError, CliOutcome, SqlSource, USAGE};
use polite::error::{OutError, PoliteError};
use polite::dataframe::WriteStatement;
use polite::frame::SqlValue;
use std::borrow::Borrow;
use polite::source::CXQuery;
use polite::{connect_sqlite, execute_query, from_dataframe, load_dataframe, save_dataframe};
use rusqlite::types::Value;
use rusqlite::Connection;
use tempfile::NamedTempFile;

// The database work that the library hands to its callers, done with rusqlite, connectorx
// and polars.

fn open(path: &str) -> Result<Connection, String> {
    Connection::open(path).map_err(|e| e.to_string())
}

fn check(conn: &Connection, sql: &str) -> Result<(), String> {
    conn.prepare(sql).map(|_| ()).map_err(|e| e.to_string())
}

fn out_error(e: ConnectorXOutError) -> OutError {
    match e {
        ConnectorXOutError::SourceNotSupport(s) => OutError::SourceNotSupport(s),
        ConnectorXOutError::ConnectorXInternalError(e) => OutError::ConnectorXInternalError(e.to_string()),
        ConnectorXOutError::SQLiteSourceError(e) => OutError::SQLiteError(e.to_string()),
        ConnectorXOutError::SQLiteError(e) => OutError::SQLiteError(e.to_string()),
        other => OutError::Other(other.to_string()),
    }
}

fn run_dispatch(path: &str, queries: &[connectorx::sql::CXQuery<String>], origin: Option<String>) -> Result<ArrowDestination, ConnectorXOutError> {
    let mut destination = ArrowDestination::new();
    let source = SQLiteSource::new(path, queries.len())?;
    let dispatcher = Dispatcher::<_, _, SQLiteArrowTransport>::new(source, &mut destination, queries, origin);
    dispatcher.run()?;
    Ok(destination)
}

fn dispatch(loads: u32, path: &str, queries: &Vec<CXQuery>, origin: Option<String>) -> (u32, Result<ArrowDestination, OutError>) {
    let queries: Vec<connectorx::sql::CXQuery<String>> = queries
        .iter()
        .map(|q| match q {
            CXQuery::Naked(s) => connectorx::sql::CXQuery::Naked(s.clone()),
            CXQuery::Wrapped(s) => connectorx::sql::CXQuery::Wrapped(s.clone()),
        })
        .collect();
    (loads + 1, run_dispatch(path, &queries, origin).map_err(out_error))
}


fn execute<T: Borrow<Connection>>(conn: T, sql: &str) -> (T, Result<usize, String>) {
    let out = conn.borrow().execute(sql, []).map_err(|e| e.to_string());
    (conn, out)
}

fn params(values: &[SqlValue]) -> Vec<Value> {
    values
        .iter()
        .map(|v| match v {
            SqlValue::Null => Value::Null,
            SqlValue::Integer(i) => Value::Integer(*i),
            SqlValue::Real(bits) => Value::Real(f64::from_bits(*bits)),
            SqlValue::Text(s) => Value::Text(s.clone()),
        })
        .collect()
}

fn run_write(conn: &Connection, st: &WriteStatement) -> Result<(), String> {
    match st {
        WriteStatement::Create(sql) => conn.execute(sql, []).map(|_| ()).map_err(|e| e.to_string()),
        WriteStatement::Prepare(sql) => conn.prepare_cached(sql).map(|_| ()).map_err(|e| e.to_string()),
        WriteStatement::Insert(sql, values) => {
            let mut statement = conn.prepare_cached(sql).map_err(|e| e.to_string())?;
            statement.execute(rusqlite::params_from_iter(params(values))).map(|_| ()).map_err(|e| e.to_string())
        }
    }
}

fn write_step<T: Borrow<Connection>>(conn: T, st: &WriteStatement) -> (T, Result<(), String>) {
    let out = run_write(conn.borrow(), st);
    (conn, out)
}

fn to_dataframe(db_path: &str, sql: &str) -> Result<DataFrame, PoliteError> {
    polite::to_dataframe(0u32, db_path, sql, &open, &check, &dispatch).1
}

fn load(db_path: &str, sql: &str) -> Result<DataFrame, PoliteError> {
    load_dataframe(0u32, db_path, sql, &open, &check, &dispatch).1
}

fn save(db_path: &str, table: &str, df: &DataFrame) -> Result<(), PoliteError> {
    save_dataframe(db_path, table, df, &open, &write_step)
}

fn write(conn: &Connection, table: &str, df: &DataFrame) -> Result<(), PoliteError> {
    from_dataframe(conn, table, df, &write_step).1
}

fn exec(conn: &Connection, sql: &str) -> Result<usize, PoliteError> {
    execute_query(conn, sql, &execute).1
}

fn connect(path: Option<&str>) -> Result<Connection, PoliteError> {
    connect_sqlite(path, &open)
}

fn no_files(path: &str) -> Result<String, String> {
    Err(format!("{path}: no such file"))
}

fn command_line(args: &[&str]) -> Vec<String> {
    let mut line: Vec<String> = vec!["polite".to_string()];
    line.extend(args.iter().map(|a| a.to_string()));
    line
}

// What the program shows for a command line: the usage text, or the outcome of its SQL.
fn polite_with(args: &[&str], read_file: &dyn Fn(&str) -> Result<String, String>) -> Result<String, CliError> {
    match parse_args(&command_line(args)) {
        CliCommand::Help => Ok(USAGE.to_string()),
        CliCommand::Run { sql, db_path } => {
            let (_loads, r) = run_command(0u32, sql, db_path.as_deref(), &open, &read_file, &check, &dispatch, &execute);
            r.map(|outcome| match outcome {
                CliOutcome::Shown(df) => format!("{df:?}"),
                CliOutcome::Executed(rows) => format!("Executed successfully, {rows} row(s) affected"),
            })
        }
    }
}

fn polite(args: &[&str]) -> Result<String, CliError> {
    polite_with(args, &no_files)
}

fn shown(output: String) -> String {
    output
}

fn id_frame() -> DataFrame {
    DataFrame::new(vec![PlColumn::new("id".into(), &[1i32])]).unwrap()
}

const BIG: i64 = i32::MAX as i64 + 1;

#[test]
fn test_to_dataframe_sqlite() {
    let db = NamedTempFile::new().unwrap();
    let db_path = db.path().to_str().unwrap();

    let conn = Connection::open(db_path).unwrap();
    conn.execute("CREATE TABLE t (id INTEGER, name TEXT)", []).unwrap();
    conn.execute("INSERT INTO t VALUES (1, 'Alice')", []).unwrap();

    let df = to_dataframe(db_path, "SELECT * FROM t").unwrap();

    assert_eq!(df.shape(), (1, 2));
    let name_col = df.column("name").unwrap();
    let val = name_col.str().unwrap().get(0).unwrap();
    assert_eq!(val, "Alice");
}

#[test]
fn test_connect_error() {
    let err = connect(Some("/nonexistent/dir/db.sqlite")).unwrap_err();
    assert!(matches!(err, PoliteError::Connect { .. }));
}

#[test]
fn test_query_error() {
    let db = NamedTempFile::new().unwrap();
    let db_path = db.path().to_str().unwrap();
    let err = to_dataframe(db_path, "SELECT * FROM nope").unwrap_err();
    assert!(matches!(err, PoliteError::Query { .. }));
}

#[test]
fn test_load_wrapper_error() {
    let db = NamedTempFile::new().unwrap();
    let db_path = db.path().to_str().unwrap();
    let err = load(db_path, "SELECT * FROM nope").unwrap_err();
    println!("Got error variant: {err:?}");
    assert!(matches!(err, PoliteError::Load { .. }));
}

#[test]
fn test_save_wrapper_error() {
    let df = id_frame();
    let err = save("/dev/null", "friends", &df).unwrap_err();
    assert!(matches!(err, PoliteError::Save { .. }));
}

#[test]
fn test_load_dataframe_error_variant() {
    let db = NamedTempFile::new().unwrap();
    let db_path = db.path().to_str().unwrap();
    let err = load(db_path, "SELECT * FROM imaginary").unwrap_err();
    println!("Got error variant: {err:?}");
    assert!(matches!(err, PoliteError::Load { .. }));
}

#[test]
fn test_save_dataframe_error_variant() {
    let df = id_frame();
    let err = save("/definitely/not/a/real/path/xxx", "friends", &df).unwrap_err();
    assert!(matches!(err, PoliteError::Connect { .. } | PoliteError::Save { .. }));
}

#[test]
fn test_small_integer_promotes_to_i64_solo() {
    let db = NamedTempFile::new().unwrap();
    let conn = connect(Some(db.path().to_str().unwrap())).unwrap();

    conn.execute("CREATE TABLE t (id INTEGER)", []).unwrap();
    conn.execute("INSERT INTO t (id) VALUES (?)", [42]).unwrap();

    let df = to_dataframe(db.path().to_str().unwrap(), "SELECT * FROM t").unwrap();
    let col = df.column("id").unwrap();
    assert_eq!(col.dtype(), &PlDataType::Int64);
    let got = col.i64().unwrap().get(0).unwrap();
    assert_eq!(got, 42);
}

#[test]
fn test_large_integer_promotes_to_i64_solo() {
    let db = NamedTempFile::new().unwrap();
    let conn = connect(Some(db.path().to_str().unwrap())).unwrap();

    conn.execute("CREATE TABLE t (id INTEGER)", []).unwrap();
    conn.execute("INSERT INTO t (id) VALUES (?)", [BIG]).unwrap();

    let df = to_dataframe(db.path().to_str().unwrap(), "SELECT * FROM t").unwrap();
    let col = df.column("id").unwrap();
    assert_eq!(col.dtype(), &PlDataType::Int64);
    let got = col.i64().unwrap().get(0).unwrap();
    assert_eq!(got, BIG);
}

#[test]
fn test_large_integer_promotes_to_i64_with_small_before() {
    let db = NamedTempFile::new().unwrap();
    let conn = connect(Some(db.path().to_str().unwrap())).unwrap();

    conn.execute("CREATE TABLE t (id INTEGER)", []).unwrap();
    conn.execute("INSERT INTO t (id) VALUES (42)", []).unwrap();
    conn.execute("INSERT INTO t (id) VALUES (?)", [BIG]).unwrap();

    let df = to_dataframe(db.path().to_str().unwrap(), "SELECT * FROM t").unwrap();
    let col = df.column("id").unwrap();
    assert_eq!(col.dtype(), &PlDataType::Int64);
    let values: Vec<i64> = col.i64().unwrap().into_no_null_iter().collect();
    assert!(values.contains(&42));
    assert!(values.contains(&BIG));
}

#[test]
fn test_large_integer_promotes_to_i64_with_small_after() {
    let db = NamedTempFile::new().unwrap();
    let conn = connect(Some(db.path().to_str().unwrap())).unwrap();

    conn.execute("CREATE TABLE t (id INTEGER)", []).unwrap();
    conn.execute("INSERT INTO t (id) VALUES (?)", [BIG]).unwrap();
    conn.execute("INSERT INTO t (id) VALUES (42)", []).unwrap();

    let df = to_dataframe(db.path().to_str().unwrap(), "SELECT * FROM t").unwrap();
    let col = df.column("id").unwrap();
    assert_eq!(col.dtype(), &PlDataType::Int64);
    let values: Vec<i64> = col.i64().unwrap().into_no_null_iter().collect();
    assert!(values.contains(&BIG));
    assert!(values.contains(&42));
}

#[test]
fn test_roundtrip_dataframe() {
    // A database file, so that the connection and the loader see the same data.
    let db = NamedTempFile::new().unwrap();
    let db_path = db.path().to_str().unwrap();
    let conn = connect(Some(db_path)).unwrap();

    let df = DataFrame::new(vec![
        PlColumn::new("id".into(), &[1i32, 2, 3]),
        PlColumn::new("name".into(), &["Alice", "Bob", "Charlie"]),
    ])
    .unwrap();

    write(&conn, "people", &df).unwrap();

    let df2 = to_dataframe(db_path, "SELECT * FROM people").unwrap();

    assert_eq!(df.shape(), df2.shape());
}

#[test]
fn test_friends_db() -> Result<(), String> {
    let db = NamedTempFile::new().map_err(|e| e.to_string())?;
    let db_path = db.path().to_str().unwrap();
    let conn = connect(Some(db_path)).map_err(|e| e.message())?;

    exec(&conn, "CREATE TABLE friends_made (id INTEGER, name TEXT)").map_err(|e| e.message())?;

    let nobody = load(db_path, "SELECT * FROM friends_made").map_err(|e| e.message())?;
    println!("🤓 I am making friends in SQLite! I don't have any there yet...\n{nobody:?}");

    exec(&conn, "INSERT INTO friends_made VALUES (1, 'Alice')").map_err(|e| e.message())?;
    exec(&conn, "INSERT INTO friends_made VALUES (2, 'Bob')").map_err(|e| e.message())?;
    exec(&conn, "INSERT INTO friends_made VALUES (3, 'Charlie')").map_err(|e| e.message())?;

    let dbf = to_dataframe(db_path, "SELECT * FROM friends_made").map_err(|e| e.message())?;
    println!("🪄 I have lovingly restored my friends into a Polars DataFrame:\n{dbf:?}");

    let polars_friends = DataFrame::new(vec![
        PlColumn::new("id".into(), &[4i32, 5]),
        PlColumn::new("name".into(), &["Dora", "Eve"]),
    ])
    .map_err(|e| e.to_string())?;

    write(&conn, "cool_friends", &polars_friends).map_err(|e| e.message())?;

    println!("🆒 My friends from Polars are now my friends in SQLite:\n{polars_friends:?}");

    let all_friends = load(db_path, "SELECT * FROM friends_made UNION ALL SELECT * FROM cool_friends ORDER BY id")
        .map_err(|e| e.message())?;
    println!("🎉 All my friends are politely gathered in a DataFrame:\n{all_friends:?}");

    Ok(())
}

#[test]
fn test_create_insert_select() {
    let db_path = NamedTempFile::new().unwrap();
    let path = db_path.path().to_str().unwrap();

    assert!(polite(&["CREATE TABLE people (id INTEGER, name TEXT)", path]).is_ok());
    assert!(polite(&["INSERT INTO people VALUES (1, 'Alice')", path]).is_ok());
    let stdout = shown(polite(&["SELECT * FROM people", path]).unwrap());
    assert!(stdout.contains("Alice"));
}

#[test]
fn help_flag_shows_usage() {
    let stdout = shown(polite(&["--help"]).unwrap());
    assert!(stdout.contains("USAGE:"));
    assert!(stdout.contains("polite <SQL> [DB_PATH]"));
}

#[test]
fn create_insert_select_file_fixture() {
    let db = NamedTempFile::new().unwrap();
    let path = db.path().to_str().unwrap();

    assert!(polite(&["CREATE TABLE t (id INTEGER, name TEXT)", path]).is_ok());
    assert!(polite(&["INSERT INTO t VALUES (1, 'Alice')", path]).is_ok());
    let stdout = shown(polite(&["SELECT * FROM t", path]).unwrap());
    assert!(stdout.contains("Alice"));
}

// Further scenarios on a real database.

#[test]
fn cli_statement_reports_rows_and_sql_file_is_read() {
    let db = NamedTempFile::new().unwrap();
    let path = db.path().to_str().unwrap();
    assert_eq!(polite(&["CREATE TABLE t (id INTEGER)", path]).unwrap(), "Executed successfully, 0 row(s) affected");
    assert_eq!(polite(&["  insert into t values (1), (2)", path]).unwrap(), "Executed successfully, 2 row(s) affected");
    match polite(&["@queries.sql", path]).unwrap_err() {
        CliError::Read(m) => assert_eq!(m, "queries.sql: no such file"),
        other => panic!("unexpected error {other:?}"),
    }
    let from_file = |p: &str| -> Result<String, String> {
        assert_eq!(p, "count.sql");
        Ok("  select count(*) AS n from t".to_string())
    };
    let (loads, outcome) = run_command(0u32, SqlSource::File("count.sql".to_string()), Some(path), &open, &from_file, &check, &dispatch, &execute);
    assert_eq!(loads, 1);
    match outcome.unwrap() {
        CliOutcome::Shown(df) => assert_eq!(df.column("n").unwrap().i64().unwrap().get(0), Some(2)),
        other => panic!("unexpected outcome {other:?}"),
    }
}

#[test]
fn cli_reports_unopenable_database() {
    match polite(&["SELECT 1", "/nonexistent/dir/db.sqlite"]).unwrap_err() {
        CliError::Polite(PoliteError::Connect { db_path, .. }) => assert_eq!(db_path, "/nonexistent/dir/db.sqlite"),
        other => panic!("unexpected error {other:?}"),
    }
}

#[test]
fn written_rows_read_back_with_their_values() {
    let db = NamedTempFile::new().unwrap();
    let db_path = db.path().to_str().unwrap();
    let conn = connect(Some(db_path)).unwrap();
    let df = DataFrame::new(vec![
        PlColumn::new("id".into(), &[1i64, 2, 3]),
        PlColumn::new("name".into(), &["Alice", "Bob", "Charlie"]),
        PlColumn::new("score".into(), &[0.5f64, 1.5, 2.5]),
    ])
    .unwrap();
    write(&conn, "people", &df).unwrap();
    let back = to_dataframe(db_path, "SELECT * FROM people ORDER BY id").unwrap();
    assert_eq!(back.shape(), (3, 3));
    let ids: Vec<i64> = back.column("id").unwrap().i64().unwrap().into_no_null_iter().collect();
    assert_eq!(ids, vec![1, 2, 3]);
    let names: Vec<String> = back.column("name").unwrap().str().unwrap().into_no_null_iter().map(|s| s.to_string()).collect();
    assert_eq!(names, vec!["Alice", "Bob", "Charlie"]);
    let scores: Vec<f64> = back.column("score").unwrap().f64().unwrap().into_no_null_iter().collect();
    assert_eq!(scores, vec![0.5, 1.5, 2.5]);
}

#[test]
fn writing_twice_appends_to_the_existing_table() {
    let db = NamedTempFile::new().unwrap();
    let db_path = db.path().to_str().unwrap();
    let conn = connect(Some(db_path)).unwrap();
    let df = DataFrame::new(vec![PlColumn::new("id".into(), &[7i64, 8])]).unwrap();
    write(&conn, "t", &df).unwrap();
    write(&conn, "t", &df).unwrap();
    let back = to_dataframe(db_path, "SELECT * FROM t").unwrap();
    assert_eq!(back.height(), 4);
}

#[test]
fn non_select_statement_is_refused_as_query() {
    let db = NamedTempFile::new().unwrap();
    let db_path = db.path().to_str().unwrap();
    let err = to_dataframe(db_path, "SELEC nonsense").unwrap_err();
    match err {
        PoliteError::Query { db_path: p, source } => {
            assert_eq!(p, db_path);
            assert!(source.starts_with("Only support single query with SELECT statement, got "));
        },
        other => panic!("unexpected error {other:?}"),
    }
}

#[test]
fn execute_query_reports_rows_and_errors() {
    let conn = connect(None).unwrap();
    assert_eq!(exec(&conn, "CREATE TABLE t (id INTEGER)").unwrap(), 0);
    assert_eq!(exec(&conn, "INSERT INTO t VALUES (1), (2)").unwrap(), 2);
    let err = exec(&conn, "INSERT INTO missing VALUES (1)").unwrap_err();
    match err {
        PoliteError::Exec { sql, .. } => assert_eq!(sql, "INSERT INTO missing VALUES (1)"),
        other => panic!("unexpected error {other:?}"),
    }
}

fn rows_of(conn: &Connection, sql: &str) -> Vec<(Option<i64>, Option<String>)> {
    let mut statement = conn.prepare(sql).unwrap();
    let rows = statement.query_map([], |row| Ok((row.get(0)?, row.get(1)?))).unwrap();
    rows.map(|r| r.unwrap()).collect()
}

#[test]
fn writing_keeps_existing_rows_and_other_tables() {
    let conn = connect(None).unwrap();
    exec(&conn, "CREATE TABLE t (id INTEGER, name TEXT)").unwrap();
    exec(&conn, "INSERT INTO t VALUES (7, 'z')").unwrap();
    exec(&conn, "CREATE TABLE other (id INTEGER, name TEXT)").unwrap();
    exec(&conn, "INSERT INTO other VALUES (9, 'keep')").unwrap();
    let df = DataFrame::new(vec![
        PlColumn::new("id".into(), &[1i64, 2]),
        PlColumn::new("name".into(), &["a", "b"]),
    ])
    .unwrap();
    write(&conn, "t", &df).unwrap();
    assert_eq!(
        rows_of(&conn, "SELECT id, name FROM t ORDER BY rowid"),
        vec![(Some(7), Some("z".to_string())), (Some(1), Some("a".to_string())), (Some(2), Some("b".to_string()))]
    );
    assert_eq!(rows_of(&conn, "SELECT id, name FROM other"), vec![(Some(9), Some("keep".to_string()))]);
}

#[test]
fn nulls_and_other_types_are_written_as_null() {
    let conn = connect(None).unwrap();
    let df = DataFrame::new(vec![
        PlColumn::new("id".into(), &[4i32, 5]),
        PlColumn::new("name".into(), &[None, Some("Eve")]),
    ])
    .unwrap();
    write(&conn, "cool_friends", &df).unwrap();
    assert_eq!(
        rows_of(&conn, "SELECT id, name FROM cool_friends ORDER BY rowid"),
        vec![(None, None), (None, Some("Eve".to_string()))]
    );
}

#[test]
fn empty_frame_is_refused_without_creating_a_table() {
    let conn = connect(None).unwrap();
    let err = write(&conn, "t", &DataFrame::empty()).unwrap_err();
    assert!(matches!(err, PoliteError::Save { ref table_name, .. } if table_name == "t"));
    let tables: i64 = conn.query_row("SELECT count(*) FROM sqlite_master WHERE name = 't'", [], |r| r.get(0)).unwrap();
    assert_eq!(tables, 0);
}

#[test]
fn failing_insert_keeps_the_rows_before_it() {
    let conn = connect(None).unwrap();
    exec(&conn, "CREATE TABLE t (id INTEGER UNIQUE, name TEXT)").unwrap();
    let df = DataFrame::new(vec![
        PlColumn::new("id".into(), &[1i64, 2, 1, 3]),
        PlColumn::new("name".into(), &["a", "b", "dup", "c"]),
    ])
    .unwrap();
    let err = write(&conn, "t", &df).unwrap_err();
    assert!(matches!(err, PoliteError::Save { .. }));
    assert_eq!(
        rows_of(&conn, "SELECT id, name FROM t ORDER BY rowid"),
        vec![(Some(1), Some("a".to_string())), (Some(2), Some("b".to_string()))]
    );
}

#[test]
fn duplicate_column_names_are_refused_not_panicked_on() {
    let db = NamedTempFile::new().unwrap();
    let db_path = db.path().to_str().unwrap();
    let err = to_dataframe(db_path, "SELECT 1 AS x, 2 AS x").unwrap_err();
    match err {
        PoliteError::ArrowToPolars { source } => assert_eq!(source, "column with name 'x' has more than one occurrence"),
        other => panic!("unexpected error {other:?}"),
    }
}

#[test]
fn few_columns_report_the_first_name_that_repeats_later() {
    let db = NamedTempFile::new().unwrap();
    let db_path = db.path().to_str().unwrap();
    let err = to_dataframe(db_path, "SELECT 1 AS a, 2 AS b, 3 AS b, 4 AS a").unwrap_err();
    match err {
        PoliteError::ArrowToPolars { source } => assert_eq!(source, "column with name 'a' has more than one occurrence"),
        other => panic!("unexpected error {other:?}"),
    }
}

#[test]
fn many_columns_report_the_first_name_seen_again() {
    let db = NamedTempFile::new().unwrap();
    let db_path = db.path().to_str().unwrap();
    let err = to_dataframe(db_path, "SELECT 1 AS a, 2 AS b, 3 AS c, 4 AS b, 5 AS a").unwrap_err();
    match err {
        PoliteError::ArrowToPolars { source } => assert_eq!(source, "column with name 'b' has more than one occurrence"),
        other => panic!("unexpected error {other:?}"),
    }
}

#[test]
fn load_dataframe_gives_what_to_dataframe_gives() {
    let db = NamedTempFile::new().unwrap();
    let db_path = db.path().to_str().unwrap();
    let conn = Connection::open(db_path).unwrap();
    conn.execute("CREATE TABLE t (id INTEGER, name TEXT)", []).unwrap();
    conn.execute("INSERT INTO t VALUES (1, 'a'), (2, 'b')", []).unwrap();
    let direct = to_dataframe(db_path, "SELECT * FROM t").unwrap();
    let wrapped = load(db_path, "SELECT * FROM t").unwrap();
    assert!(direct.equals_missing(&wrapped));
    let direct_err = to_dataframe(db_path, "SELECT * FROM missing").unwrap_err();
    let wrapped_err = load(db_path, "SELECT * FROM missing").unwrap_err();
    match wrapped_err {
        PoliteError::Load { db_path: p, source } => {
            assert_eq!(p, db_path);
            assert_eq!(source, direct_err.message());
        }
        other => panic!("unexpected error {other:?}"),
    }
}

#[test]
fn save_dataframe_is_connect_then_write() {
    let saved_db = NamedTempFile::new().unwrap();
    let saved_path = saved_db.path().to_str().unwrap();
    let written_db = NamedTempFile::new().unwrap();
    let written_path = written_db.path().to_str().unwrap();
    let df = id_frame();
    save(saved_path, "t", &df).unwrap();
    let conn = connect(Some(written_path)).unwrap();
    write(&conn, "t", &df).unwrap();
    let read_saved = to_dataframe(saved_path, "SELECT * FROM t").unwrap();
    let read_written = to_dataframe(written_path, "SELECT * FROM t").unwrap();
    assert!(read_saved.equals_missing(&read_written));
    let connect_err = connect(Some("/nonexistent/dir/db.sqlite")).unwrap_err();
    match save("/nonexistent/dir/db.sqlite", "t", &df).unwrap_err() {
        PoliteError::Save { db_path, table_name, source } => {
            assert_eq!(db_path, "/nonexistent/dir/db.sqlite");
            assert_eq!(table_name, "t");
            assert_eq!(source, connect_err.message());
        }
        other => panic!("unexpected error {other:?}"),
    }
}

#[test]
fn refused_query_loads_nothing() {
    let db = NamedTempFile::new().unwrap();
    let db_path = db.path().to_str().unwrap();
    let (loads, r) = polite::to_dataframe(0u32, db_path, "SELECT * FROM nope", &open, &check, &dispatch);
    assert_eq!(loads, 0);
    assert!(matches!(r, Err(PoliteError::Query { .. })));
    let (loads, r) = polite::to_dataframe(0u32, "/nonexistent/dir/db.sqlite", "SELECT 1", &open, &check, &dispatch);
    assert_eq!(loads, 0);
    assert!(matches!(r, Err(PoliteError::Connect { .. })));
    let (loads, r) = polite::to_dataframe(0u32, db_path, "SELECT 1 AS one", &open, &check, &dispatch);
    assert_eq!(loads, 1);
    assert_eq!(r.unwrap().shape(), (1, 1));
}
