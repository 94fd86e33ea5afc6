//! The decisions of the command-line tool: what its arguments ask for, and whether a
//! statement is a query to show as a frame or a statement to run.
use vstd::prelude::*;
use vstd::string::*;

use crate::dataframe::{frame_load_failed, frame_loaded, to_dataframe};
use crate::db::{connect_sqlite, db_path_or_memory, execute_query, opt_view};
use crate::error::{OutError, PoliteError, PoliteErrorView};
use crate::source::CXQuery;
use crate::text::{owned, starts_with, str_eq};
use connectorx::destinations::arrow::ArrowDestination;
use polars::prelude::DataFrame;

verus! {

/// The usage text of the command-line tool.
pub const USAGE: &'static str = "polite \u{2014} rusqlite \u{d7} Polars bridge demo

USAGE:
    polite <SQL> [DB_PATH]

ARGS:
    <SQL>       SQL statement (use @file.sql to read from file)
    [DB_PATH]   Path to SQLite database file (defaults to in-memory)

EXAMPLES:
    polite \"CREATE TABLE t (id INTEGER, name TEXT)\"
    polite \"INSERT INTO t VALUES (1, 'Alice')\"
    polite \"SELECT * FROM t\"
    polite @queries.sql mydb.sqlite3";

/// Where the SQL to run comes from: the argument itself, or the file it names after `@`.
#[derive(Debug)]
pub enum SqlSource {
    Inline(String),
    File(String),
}

/// What the command line asks for: the usage text, or running SQL on a database (in memory
/// when no path is given).
#[derive(Debug)]
pub enum CliCommand {
    Help,
    Run { sql: SqlSource, db_path: Option<String> },
}

/// The view of a `SqlSource`: `(is a file, text)`.
pub open spec fn sql_source_view(s: SqlSource) -> (bool, Seq<char>) {
    match s {
        SqlSource::Inline(t) => (false, t@),
        SqlSource::File(p) => (true, p@),
    }
}

/// Where the SQL argument `arg` says the SQL comes from: a leading `@` names a file.
pub open spec fn spec_sql_source(arg: Seq<char>) -> (bool, Seq<char>) {
    if arg.len() > 0 && arg[0] == '@' {
        (true, arg.subrange(1, arg.len() as int))
    } else {
        (false, arg)
    }
}

/// Whether the arguments ask for the usage text: fewer than two of them, or `--help` or `-h`
/// among them.
pub open spec fn wants_help(args: Seq<Seq<char>>) -> bool {
    args.len() < 2 || args.contains("--help"@) || args.contains("-h"@)
}

pub open spec fn arg_views(args: Seq<String>) -> Seq<Seq<char>> {
    args.map_values(|a: String| a@)
}

/// Whether `args` holds `target`.
fn contains_arg(args: &Vec<String>, target: &str) -> (r: bool)
    ensures
        r == arg_views(args@).contains(target@),
{
    let n = args.len();
    let mut i: usize = 0;
    while i < n
        invariant
            n == args@.len(),
            i <= n,
            forall|k: int| 0 <= k < i ==> args@[k]@ != target@,
        decreases n - i,
    {
        if str_eq(args[i].as_str(), target) {
            assert(arg_views(args@)[i as int] == target@);
            return true;
        }
        i = i + 1;
    }
    proof {
        if arg_views(args@).contains(target@) {
            let k = choose|k: int| 0 <= k < arg_views(args@).len() && arg_views(args@)[k] == target@;
            assert(args@[k]@ == target@);
        }
    }
    false
}

/// Where the SQL argument `arg` says the SQL comes from.
pub fn sql_source(arg: &str) -> (r: SqlSource)
    ensures
        sql_source_view(r) == spec_sql_source(arg@),
{
    let n = arg.unicode_len();
    if n > 0 && arg.get_char(0) == '@' {
        SqlSource::File(owned(arg.substring_char(1, n)))
    } else {
        SqlSource::Inline(owned(arg))
    }
}

/// What the command line `args` (the program name first) asks for: the usage text when
/// `wants_help`; else running the SQL of the second argument on the database the third
/// argument names, if there is one.
pub fn parse_args(args: &Vec<String>) -> (r: CliCommand)
    ensures
        wants_help(arg_views(args@)) ==> r is Help,
        !wants_help(arg_views(args@)) ==> (r matches CliCommand::Run { sql, db_path } && {
            &&& sql_source_view(sql) == spec_sql_source(args@[1]@)
            &&& match db_path {
                Some(p) => args@.len() > 2 && p@ == args@[2]@,
                None => args@.len() <= 2,
            }
        }),
{
    if args.len() < 2 || contains_arg(args, "--help") || contains_arg(args, "-h") {
        return CliCommand::Help;
    }
    let sql = sql_source(args[1].as_str());
    let db_path = if args.len() > 2 {
        Some(owned(args[2].as_str()))
    } else {
        None
    };
    CliCommand::Run { sql, db_path }
}

/// Whether `c` is whitespace: has Unicode's `White_Space` property, which these code points
/// have: U+0009 to U+000D, U+0020, U+0085, U+00A0, U+1680, U+2000 to U+200A, U+2028, U+2029,
/// U+202F, U+205F and U+3000.
pub open spec fn is_white_space(c: char) -> bool {
    let v = c as u32;
    ||| 0x09 <= v <= 0x0d
    ||| v == 0x20
    ||| v == 0x85
    ||| v == 0xa0
    ||| v == 0x1680
    ||| 0x2000 <= v <= 0x200a
    ||| v == 0x2028
    ||| v == 0x2029
    ||| v == 0x202f
    ||| v == 0x205f
    ||| v == 0x3000
}

/// Whether `c` is whitespace.
fn char_is_whitespace(c: char) -> (r: bool)
    ensures
        r == is_white_space(c),
{
    let v = c as u32;
    (0x09 <= v && v <= 0x0d) || v == 0x20 || v == 0x85 || v == 0xa0 || v == 0x1680 || (0x2000 <= v
        && v <= 0x200a) || v == 0x2028 || v == 0x2029 || v == 0x202f || v == 0x205f || v == 0x3000
}

/// `s` without its leading whitespace, as std's `str::trim_start` gives it.
pub open spec fn trim_start_spec(s: Seq<char>) -> Seq<char>
    decreases s.len(),
{
    if s.len() > 0 && is_white_space(s[0]) {
        trim_start_spec(s.drop_first())
    } else {
        s
    }
}

/// The upper-case form of `s`, as std's `str::to_uppercase` gives it (Unicode's full case
/// mapping, which may change the length).
pub uninterp spec fn uppercase(s: Seq<char>) -> Seq<char>;

/// Calls std's `str::to_uppercase`; its result is named `uppercase`.
#[verifier::external_body]
fn to_uppercase(s: &str) -> (r: String)
    ensures
        r@ == uppercase(s@),
{
    s.to_uppercase()
}

/// `s` without its leading whitespace.
pub fn trim_start(s: &str) -> (r: &str)
    ensures
        r@ == trim_start_spec(s@),
{
    let n = s.unicode_len();
    let mut i: usize = 0;
    assert(s@.subrange(0, n as int) =~= s@);
    while i < n && char_is_whitespace(s.get_char(i))
        invariant
            n == s@.len(),
            i <= n,
            trim_start_spec(s@) == trim_start_spec(s@.subrange(i as int, n as int)),
        decreases n - i,
    {
        assert(s@.subrange(i as int, n as int).drop_first() =~= s@.subrange(i + 1, n as int));
        i = i + 1;
    }
    s.substring_char(i, n)
}

/// Whether `sql` is a query whose result is shown as a frame: once its leading whitespace is
/// dropped and it is upper-cased, it begins with `SELECT`.
pub open spec fn spec_is_select(sql: Seq<char>) -> bool {
    "SELECT"@.is_prefix_of(uppercase(trim_start_spec(sql)))
}

/// Dropping the leading whitespace of `s` drops exactly that: what is left is what follows a
/// prefix of `s` made of whitespace only, and it is empty or begins with a character that is not
/// whitespace.
pub proof fn law_trim_start_drops_leading_whitespace(s: Seq<char>)
    ensures
        exists|k: int|
            0 <= k <= s.len() && trim_start_spec(s) == s.subrange(k, s.len() as int) && forall|i: int|
                0 <= i < k ==> is_white_space(#[trigger] s[i]),
        trim_start_spec(s).len() > 0 ==> !is_white_space(trim_start_spec(s)[0]),
    decreases s.len(),
{
    if s.len() > 0 && is_white_space(s[0]) {
        let t = s.drop_first();
        law_trim_start_drops_leading_whitespace(t);
        let k = choose|k: int|
            0 <= k <= t.len() && trim_start_spec(t) == t.subrange(k, t.len() as int) && forall|i: int|
                0 <= i < k ==> is_white_space(#[trigger] t[i]);
        assert(t.subrange(k, t.len() as int) =~= s.subrange(k + 1, s.len() as int));
        assert forall|i: int| 0 <= i < k + 1 implies is_white_space(#[trigger] s[i]) by {
            if i > 0 {
                assert(s[i] == t[i - 1]);
            }
        }
    } else {
        assert(s.subrange(0, s.len() as int) =~= s);
    }
}

/// An SQL argument that begins with `@` names the file holding the SQL, and the name is the rest
/// of the argument; any other argument is the SQL itself, unchanged.
pub proof fn law_sql_argument_source(arg: Seq<char>)
    ensures
        spec_sql_source(arg).0 <==> (arg.len() > 0 && arg[0] == '@'),
        spec_sql_source(arg).0 ==> seq!['@'] + spec_sql_source(arg).1 == arg,
        !spec_sql_source(arg).0 ==> spec_sql_source(arg).1 == arg,
{
    if arg.len() > 0 && arg[0] == '@' {
        assert(seq!['@'] + arg.subrange(1, arg.len() as int) =~= arg);
    }
}

/// A statement is shown as a frame exactly when, with its leading whitespace dropped and
/// upper-cased, its first six characters are `SELECT`, whatever comes after them: a space, a
/// newline, a parenthesis, or nothing at all.
pub proof fn law_select_keyword_alone_decides(sql: Seq<char>)
    ensures
        spec_is_select(sql) <==> {
            let u = uppercase(trim_start_spec(sql));
            &&& u.len() >= 6
            &&& u[0] == 'S' && u[1] == 'E' && u[2] == 'L' && u[3] == 'E' && u[4] == 'C' && u[5] == 'T'
        },
{
    reveal_strlit("SELECT");
    let u = uppercase(trim_start_spec(sql));
    if u.len() >= 6 && u[0] == 'S' && u[1] == 'E' && u[2] == 'L' && u[3] == 'E' && u[4] == 'C' && u[5] == 'T' {
        assert(u.subrange(0, 6) =~= "SELECT"@);
    }
    if spec_is_select(sql) {
        assert(u.subrange(0, 6) == "SELECT"@);
        assert(u[0] == u.subrange(0, 6)[0]);
        assert(u[1] == u.subrange(0, 6)[1]);
        assert(u[2] == u.subrange(0, 6)[2]);
        assert(u[3] == u.subrange(0, 6)[3]);
        assert(u[4] == u.subrange(0, 6)[4]);
        assert(u[5] == u.subrange(0, 6)[5]);
    }
}

/// Whether `sql` is a query whose result is shown as a frame.
pub fn is_select(sql: &str) -> (r: bool)
    ensures
        r == spec_is_select(sql@),
{
    let upper = to_uppercase(trim_start(sql));
    starts_with(upper.as_str(), "SELECT")
}

/// What running a statement gave: the frame of a query to show, or the number of rows a
/// statement changed.
#[derive(Debug)]
pub enum CliOutcome {
    Shown(DataFrame),
    Executed(usize),
}

/// Why running a command line failed: a database error, or the file of SQL could not be read
/// (with the text of the reading error).
#[derive(Debug)]
pub enum CliError {
    Polite(PoliteError),
    Read(String),
}

/// `open` opened the database at `path` as `c`.
pub open spec fn connection_opened<C, FO: Fn(&str) -> Result<C, String>>(open: FO, path: Seq<char>, c: C) -> bool {
    exists|p: &str|
        #![trigger call_ensures(open, (p,), Ok::<C, String>(c))]
        p@ == path && call_ensures(open, (p,), Ok::<C, String>(c))
}

/// `sql` is the SQL that `source` (`(is a file, text)`) stands for: the text itself, or, for a
/// file, what `read_file` read from it.
pub open spec fn sql_obtained<FF: Fn(&str) -> Result<String, String>>(read_file: FF, source: (bool, Seq<char>), sql: Seq<char>) -> bool {
    if source.0 {
        exists|p: &str, s: String|
            #![trigger call_ensures(read_file, (p,), Ok::<String, String>(s))]
            p@ == source.1 && s@ == sql && call_ensures(read_file, (p,), Ok::<String, String>(s))
    } else {
        sql == source.1
    }
}

/// `r` is what showing the query `sql` on the database `db_path` as a frame gives, loading with
/// `loader`.
pub open spec fn select_done<
    T,
    C,
    FO: Fn(&str) -> Result<C, String>,
    FC: Fn(&C, &str) -> Result<(), String>,
    FD: Fn(T, &str, &Vec<CXQuery>, Option<String>) -> (T, Result<ArrowDestination, OutError>),
>(open: FO, check: FC, dispatch: FD, loader: T, db_path: &str, sql: &str, r: (T, Result<CliOutcome, CliError>)) -> bool {
    match r.1 {
        Ok(CliOutcome::Shown(df)) => frame_loaded(open, check, dispatch, loader, db_path, sql, r.0, df),
        Err(CliError::Polite(e)) => frame_load_failed(open, check, dispatch, loader, db_path, sql, r.0, e@),
        _ => false,
    }
}

/// `r` is what running the statement `sql` once on the connection `conn` with `execute` gives.
pub open spec fn exec_done<C, FE: Fn(C, &str) -> (C, Result<usize, String>)>(execute: FE, conn: C, sql: &str, r: Result<CliOutcome, CliError>) -> bool {
    exists|c_end: C, out: Result<usize, String>|
        #![trigger call_ensures(execute, (conn, sql), (c_end, out))]
        call_ensures(execute, (conn, sql), (c_end, out)) && match out {
            Ok(n) => r matches Ok(CliOutcome::Executed(k)) && k == n,
            Err(m) => r matches Err(CliError::Polite(e)) && e@ == PoliteErrorView::Exec { sql: sql@, source: m@ },
        }
}

/// What running the SQL of `source` on the database at `path` gives once the connection `c` to
/// it is open: a failure to read the file of SQL; or, with the SQL obtained, the frame of a
/// query (`spec_is_select`), loaded from the database's path with `loader`, or the outcome of
/// running any other statement on `c`. Only a query loads anything: otherwise the loader comes
/// back untouched.
pub open spec fn cli_after_connect<
    T,
    C,
    FO: Fn(&str) -> Result<C, String>,
    FF: Fn(&str) -> Result<String, String>,
    FC: Fn(&C, &str) -> Result<(), String>,
    FD: Fn(T, &str, &Vec<CXQuery>, Option<String>) -> (T, Result<ArrowDestination, OutError>),
    FE: Fn(C, &str) -> (C, Result<usize, String>),
>(
    open: FO,
    read_file: FF,
    check: FC,
    dispatch: FD,
    execute: FE,
    loader: T,
    c: C,
    source: (bool, Seq<char>),
    path: Seq<char>,
    r: (T, Result<CliOutcome, CliError>),
) -> bool {
    ||| source.0 && r.0 == loader && exists|p: &str, m: String|
        #![trigger call_ensures(read_file, (p,), Err::<String, String>(m))]
        {
            &&& p@ == source.1
            &&& call_ensures(read_file, (p,), Err::<String, String>(m))
            &&& r.1 matches Err(CliError::Read(m2)) && m2@ == m@
        }
    ||| exists|sql: Seq<char>|
        #![trigger sql_obtained(read_file, source, sql)]
        sql_obtained(read_file, source, sql) && if spec_is_select(sql) {
            exists|dp: &str, q: &str|
                #![trigger select_done(open, check, dispatch, loader, dp, q, r)]
                dp@ == path && q@ == sql && select_done(open, check, dispatch, loader, dp, q, r)
        } else {
            r.0 == loader && exists|q: &str|
                #![trigger exec_done(execute, c, q, r.1)]
                q@ == sql && exec_done(execute, c, q, r.1)
        }
}

/// Runs the SQL of a command line (`CliCommand::Run`): the database at `db_path` (in memory
/// when there is none) is opened with `open` (a failure is a `Connect` error), the SQL is
/// `sql`'s text or read with `read_file` from the file it names, and then a query
/// (`is_select`) is loaded as a frame from the database's path with `loader`, while any other
/// statement runs on the open connection with `execute`.
pub fn run_command<T, C, FO, FF, FC, FD, FE>(
    loader: T,
    sql: SqlSource,
    db_path: Option<&str>,
    open: &FO,
    read_file: &FF,
    check: &FC,
    dispatch: &FD,
    execute: &FE,
) -> (r: (T, Result<CliOutcome, CliError>))
    where
        FO: Fn(&str) -> Result<C, String>,
        FF: Fn(&str) -> Result<String, String>,
        FC: Fn(&C, &str) -> Result<(), String>,
        FD: Fn(T, &str, &Vec<CXQuery>, Option<String>) -> (T, Result<ArrowDestination, OutError>),
        FE: Fn(C, &str) -> (C, Result<usize, String>),
    requires
        forall|p: &str| call_requires(*open, (p,)),
        forall|p: &str| call_requires(*read_file, (p,)),
        forall|c: &C, q: &str| call_requires(*check, (c, q)),
        forall|t: T, p: &str, qs: &Vec<CXQuery>, o: Option<String>| call_requires(*dispatch, (t, p, qs, o)),
        forall|c: C, q: &str| call_requires(*execute, (c, q)),
    ensures
        ({
            let path = db_path_or_memory(opt_view(db_path));
            ||| r.0 == loader && exists|p: &str, m: String|
                #![trigger call_ensures(*open, (p,), Err::<C, String>(m))]
                {
                    &&& p@ == path
                    &&& call_ensures(*open, (p,), Err::<C, String>(m))
                    &&& r.1 matches Err(CliError::Polite(e)) && e@ == PoliteErrorView::Connect { db_path: p@, source: m@ }
                }
            ||| exists|c: C|
                #![trigger cli_after_connect(*open, *read_file, *check, *dispatch, *execute, loader, c, sql_source_view(sql), path, r)]
                connection_opened(*open, path, c)
                    && cli_after_connect(*open, *read_file, *check, *dispatch, *execute, loader, c, sql_source_view(sql), path, r)
        }),
{
    let ghost loader0 = loader;
    let ghost source = sql_source_view(sql);
    let ghost path_v = db_path_or_memory(opt_view(db_path));
    let conn = match connect_sqlite(db_path, open) {
        Ok(c) => c,
        Err(e) => {
            return (loader, Err(CliError::Polite(e)));
        },
    };
    let text: String = match sql {
        SqlSource::Inline(t) => t,
        SqlSource::File(p) => {
            let file = p.as_str();
            match read_file(file) {
                Ok(s) => {
                    assert(call_ensures(*read_file, (file,), Ok::<String, String>(s)));
                    s
                },
                Err(m) => {
                    let r = (loader, Err(CliError::Read(m)));
                    assert(cli_after_connect(*open, *read_file, *check, *dispatch, *execute, loader0, conn, source, path_v, r));
                    return r;
                },
            }
        },
    };
    assert(sql_obtained(*read_file, source, text@));
    let load_path: &str = match db_path {
        Some(p) => p,
        None => ":memory:",
    };
    let sql_text = text.as_str();
    if is_select(sql_text) {
        let (loader_end, loaded) = to_dataframe(loader, load_path, sql_text, open, check, dispatch);
        let r = match loaded {
            Ok(f) => (loader_end, Ok(CliOutcome::Shown(f))),
            Err(e) => (loader_end, Err(CliError::Polite(e))),
        };
        assert(select_done(*open, *check, *dispatch, loader0, load_path, sql_text, r));
        assert(cli_after_connect(*open, *read_file, *check, *dispatch, *execute, loader0, conn, source, path_v, r));
        r
    } else {
        let ghost c0 = conn;
        let (_conn, ran) = execute_query(conn, sql_text, execute);
        let outcome = match ran {
            Ok(n) => Ok(CliOutcome::Executed(n)),
            Err(e) => Err(CliError::Polite(e)),
        };
        assert(exec_done(*execute, c0, sql_text, outcome));
        let r = (loader, outcome);
        assert(cli_after_connect(*open, *read_file, *check, *dispatch, *execute, loader0, c0, source, path_v, r));
        r
    }
}

} // verus!
