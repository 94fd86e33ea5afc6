//! Moving data between SQLite and data frames: running a query into a frame, and writing a
//! frame into a table.
use vstd::prelude::*;

use crate::error::{OutError, PoliteError, PoliteErrorView, out_message};
use crate::frame::{SqlValue, SqlValueView, ValuesView, df_height, df_width, polars_columns, polars_height, row_values, row_view, sql_values_view};
use crate::get_arrow::{dispatch_is_functional, get_arrow};
use crate::partition::sqlite_path;
use crate::source::{CXQuery, CXQueryView, SourceConn, parsed_connection_parts, query_views};
use crate::statements::{create_table_statement, create_table_text, insert_statement, insert_text};
use crate::text::{concat2, owned, str_eq, views};
use connectorx::destinations::arrow::ArrowDestination;
use polars::prelude::DataFrame;

verus! {

/// The `Save` error of writing to the table `table` of the database `db_path`, caused by `e`.
pub fn save_err(db_path: &str, table: &str, e: String) -> (r: PoliteError)
    ensures
        r@ == (PoliteErrorView::Save { db_path: db_path@, table_name: table@, source: e@ }),
{
    PoliteError::Save { db_path: owned(db_path), table_name: owned(table), source: e }
}

/// One statement of writing a frame into a table: creating the table, preparing the insert
/// statement (its text), or inserting one row with the prepared statement (its values, with the
/// statement's text).
#[derive(Debug)]
pub enum WriteStatement {
    Create(String),
    Prepare(String),
    Insert(String, Vec<SqlValue>),
}

/// The view of a `WriteStatement`.
pub enum WriteStatementView {
    Create(Seq<char>),
    Prepare(Seq<char>),
    Insert(Seq<char>, Seq<SqlValueView>),
}

impl View for WriteStatement {
    type V = WriteStatementView;

    open spec fn view(&self) -> WriteStatementView {
        match self {
            WriteStatement::Create(s) => WriteStatementView::Create(s@),
            WriteStatement::Prepare(s) => WriteStatementView::Prepare(s@),
            WriteStatement::Insert(s, vals) => WriteStatementView::Insert(s@, sql_values_view(vals@)),
        }
    }
}

/// The statements that write a frame with columns `cols` and `rows` rows into `table`, in
/// order: create the table unless it exists, prepare the insert statement, then insert each
/// row, first to last.
pub open spec fn write_plan(table: Seq<char>, cols: Seq<(Seq<char>, ValuesView)>, rows: nat) -> Seq<WriteStatementView> {
    seq![
        WriteStatementView::Create(create_table_text(table, cols)),
        WriteStatementView::Prepare(insert_text(table, cols.len())),
    ] + Seq::new(rows, |i: int| WriteStatementView::Insert(insert_text(table, cols.len()), row_view(cols, i)))
}

/// Row `r` of a frame is written by the insert statement that follows the table's creation and
/// the preparation: it holds one value per column, and each is that column's own cell of row
/// `r`, unchanged: an integer as the same `i64`, a float by the same bits, a string as the same
/// text, and NULL for a missing value or a column of another type.
pub proof fn law_inserted_rows_hold_frame_cells(table: Seq<char>, cols: Seq<(Seq<char>, ValuesView)>, rows: nat, r: int, i: int)
    requires
        0 <= r < rows,
        0 <= i < cols.len(),
    ensures
        write_plan(table, cols, rows).len() == rows + 2,
        write_plan(table, cols, rows)[r + 2] is Insert,
        ({
            let vals = write_plan(table, cols, rows)[r + 2]->Insert_1;
            let v = cols[i].1;
            &&& vals.len() == cols.len()
            &&& (v is Int64 && v->Int64_0[r] is Some ==> vals[i] == SqlValueView::Integer(v->Int64_0[r]->Some_0))
            &&& (v is Int64 && v->Int64_0[r] is None ==> vals[i] == SqlValueView::Null)
            &&& (v is Float64 && v->Float64_0[r] is Some ==> vals[i] == SqlValueView::Real(v->Float64_0[r]->Some_0))
            &&& (v is Float64 && v->Float64_0[r] is None ==> vals[i] == SqlValueView::Null)
            &&& (v is String && v->String_0[r] is Some ==> vals[i] == SqlValueView::Text(v->String_0[r]->Some_0))
            &&& (v is String && v->String_0[r] is None ==> vals[i] == SqlValueView::Null)
            &&& (v is Other ==> vals[i] == SqlValueView::Null)
        }),
{
}

/// `write`, started on the connection `c0`, ran exactly the statements `stmts`, which are the
/// first statements of `plan`, one after the other: statement `i` ran on the connection
/// `states[i]` and gave the connection `states[i + 1]` and the outcome `outs[i]`; every
/// statement but the last succeeded.
pub open spec fn writes_ran<C, FW: Fn(C, &WriteStatement) -> (C, Result<(), String>)>(
    write: FW,
    c0: C,
    plan: Seq<WriteStatementView>,
    states: Seq<C>,
    stmts: Seq<WriteStatement>,
    outs: Seq<Result<(), String>>,
) -> bool {
    &&& states.len() == stmts.len() + 1
    &&& outs.len() == stmts.len()
    &&& stmts.len() <= plan.len()
    &&& states[0] == c0
    &&& forall|i: int| 0 <= i < stmts.len() ==> #[trigger] stmts[i]@ == plan[i]
    &&& forall|i: int|
        #![trigger outs[i]]
        0 <= i < stmts.len() ==> call_ensures(write, (states[i], &stmts[i]), (states[i + 1], outs[i]))
    &&& forall|i: int| #![trigger outs[i]] 0 <= i < stmts.len() - 1 ==> outs[i] is Ok
}

/// `write`, started on `c0`, ran the statements of `plan` in order until the first failure or the
/// end, and no others, ending on the connection `c_end`; `result` is what that reports: `Ok`
/// when every statement of the plan succeeded, else the `Save` error of `table` on
/// `<connection>` with the failed statement's text.
pub open spec fn plan_written<C, FW: Fn(C, &WriteStatement) -> (C, Result<(), String>)>(
    write: FW,
    c0: C,
    plan: Seq<WriteStatementView>,
    table: Seq<char>,
    c_end: C,
    result: Result<(), PoliteErrorView>,
) -> bool {
    exists|states: Seq<C>, stmts: Seq<WriteStatement>, outs: Seq<Result<(), String>>|
        #![trigger writes_ran(write, c0, plan, states, stmts, outs)]
        {
            &&& writes_ran(write, c0, plan, states, stmts, outs)
            &&& states.last() == c_end
            &&& match result {
                Ok(_) => stmts.len() == plan.len() && outs.last() is Ok,
                Err(e) => {
                    &&& stmts.len() >= 1
                    &&& outs.last() matches Err(m) && e == (PoliteErrorView::Save {
                        db_path: "<connection>"@,
                        table_name: table,
                        source: m@,
                    })
                },
            }
        }
}

/// Whether `write` gives one outcome for one input: two calls on the same connection with
/// statements of the same view give back the same connection and the same outcome (as running a
/// statement on a database that is in the same state does).
pub open spec fn write_is_functional<C, FW: Fn(C, &WriteStatement) -> (C, Result<(), String>)>(write: FW) -> bool {
    forall|c: C, s1: &WriteStatement, s2: &WriteStatement, r1: (C, Result<(), String>), r2: (C, Result<(), String>)|
        #![trigger call_ensures(write, (c, s1), r1), call_ensures(write, (c, s2), r2)]
        s1@ == s2@ && call_ensures(write, (c, s1), r1) && call_ensures(write, (c, s2), r2) ==> r1 == r2
}

/// Two runs of the same plan through a `write` that gives one outcome for one input agree on
/// the statements both ran: the same connections and the same outcomes.
proof fn lemma_writes_ran_agree<C, FW: Fn(C, &WriteStatement) -> (C, Result<(), String>)>(
    write: FW,
    c0: C,
    plan: Seq<WriteStatementView>,
    states1: Seq<C>,
    stmts1: Seq<WriteStatement>,
    outs1: Seq<Result<(), String>>,
    states2: Seq<C>,
    stmts2: Seq<WriteStatement>,
    outs2: Seq<Result<(), String>>,
    k: int,
)
    requires
        write_is_functional(write),
        writes_ran(write, c0, plan, states1, stmts1, outs1),
        writes_ran(write, c0, plan, states2, stmts2, outs2),
        0 <= k <= stmts1.len(),
        k <= stmts2.len(),
    ensures
        forall|i: int| 0 <= i <= k ==> #[trigger] states1[i] == states2[i],
        forall|i: int| 0 <= i < k ==> #[trigger] outs1[i] == outs2[i],
    decreases k,
{
    if k > 0 {
        lemma_writes_ran_agree(write, c0, plan, states1, stmts1, outs1, states2, stmts2, outs2, k - 1);
        let j = k - 1;
        assert(stmts1[j]@ == plan[j] && stmts2[j]@ == plan[j]);
        assert(states1[j] == states2[j]);
        assert(call_ensures(write, (states1[j], &stmts1[j]), (states1[j + 1], outs1[j])));
        assert(call_ensures(write, (states2[j], &stmts2[j]), (states2[j + 1], outs2[j])));
        assert(states1[k] == states2[k] && outs1[j] == outs2[j]);
    }
}

/// With a `write` that gives one outcome for one input, writing a plan has one outcome: the
/// same final connection and the same result.
pub proof fn lemma_plan_written_functional<C, FW: Fn(C, &WriteStatement) -> (C, Result<(), String>)>(
    write: FW,
    c0: C,
    plan: Seq<WriteStatementView>,
    table: Seq<char>,
    e1: C,
    r1: Result<(), PoliteErrorView>,
    e2: C,
    r2: Result<(), PoliteErrorView>,
)
    requires
        write_is_functional(write),
        plan_written(write, c0, plan, table, e1, r1),
        plan_written(write, c0, plan, table, e2, r2),
    ensures
        e1 == e2,
        r1 == r2,
{
    let (states1, stmts1, outs1) = choose|states: Seq<C>, stmts: Seq<WriteStatement>, outs: Seq<Result<(), String>>| {
        &&& #[trigger] writes_ran(write, c0, plan, states, stmts, outs)
        &&& states.last() == e1
        &&& match r1 {
            Ok(_) => stmts.len() == plan.len() && outs.last() is Ok,
            Err(e) => {
                &&& stmts.len() >= 1
                &&& outs.last() matches Err(m) && e == (PoliteErrorView::Save { db_path: "<connection>"@, table_name: table, source: m@ })
            },
        }
    };
    let (states2, stmts2, outs2) = choose|states: Seq<C>, stmts: Seq<WriteStatement>, outs: Seq<Result<(), String>>| {
        &&& #[trigger] writes_ran(write, c0, plan, states, stmts, outs)
        &&& states.last() == e2
        &&& match r2 {
            Ok(_) => stmts.len() == plan.len() && outs.last() is Ok,
            Err(e) => {
                &&& stmts.len() >= 1
                &&& outs.last() matches Err(m) && e == (PoliteErrorView::Save { db_path: "<connection>"@, table_name: table, source: m@ })
            },
        }
    };
    let n1 = stmts1.len() as int;
    let n2 = stmts2.len() as int;
    let n = if n1 <= n2 { n1 } else { n2 };
    lemma_writes_ran_agree(write, c0, plan, states1, stmts1, outs1, states2, stmts2, outs2, n);
    if n1 < n2 {
        assert(outs2[n1 - 1] is Ok);
        assert(outs1[n1 - 1] == outs2[n1 - 1]);
    } else if n2 < n1 {
        assert(outs1[n2 - 1] is Ok);
        assert(outs1[n2 - 1] == outs2[n2 - 1]);
    }
    assert(n1 == n2);
    assert(states1[n1] == states2[n1]);
    if n1 > 0 {
        assert(outs1[n1 - 1] == outs2[n1 - 1]);
        assert(outs1.last() == outs2.last());
    }
    match (r1, r2) {
        (Ok(u1), Ok(u2)) => {
            assert(u1 == u2);
        },
        (Err(x1), Err(x2)) => {
            assert(x1 == x2);
        },
        _ => {},
    }
}

/// The view of a write result.
pub open spec fn unit_result_view(r: Result<(), PoliteError>) -> Result<(), PoliteErrorView> {
    match r {
        Ok(_) => Ok(()),
        Err(e) => Err(e@),
    }
}

/// Writes the frame `df` into the table `table` through the connection `conn`, running each
/// statement with `write`, which gives back the connection: creates the table unless it exists
/// (one column per frame column, `INTEGER`, `REAL` or `TEXT` by its type), prepares the insert
/// statement, and inserts each row, in order (`write_plan`). No other statement runs, and the
/// first failure stops the writing; it is reported as a `Save` error of the table on
/// `<connection>`. The connection is given back with the result.
pub fn from_dataframe<C, FW>(
    conn: C,
    table: &str,
    df: &DataFrame,
    write: &FW,
) -> (r: (C, Result<(), PoliteError>))
    where
        FW: Fn(C, &WriteStatement) -> (C, Result<(), String>),
    requires
        forall|c: C, st: &WriteStatement| call_requires(*write, (c, st)),
    ensures
        plan_written(*write, conn, write_plan(table@, polars_columns(*df), polars_height(*df)), table@, r.0, unit_result_view(r.1)),
{
    let ghost plan = write_plan(table@, polars_columns(*df), polars_height(*df));
    let ghost cols = polars_columns(*df);
    let create = WriteStatement::Create(create_table_statement(table, df));
    let ghost c0 = conn;
    let (c1, created) = write(conn, &create);
    let ghost mut states: Seq<C> = seq![c0, c1];
    let ghost mut stmts: Seq<WriteStatement> = seq![create];
    let ghost mut outs: Seq<Result<(), String>> = seq![created];
    assert(call_ensures(*write, (states[0], &stmts[0]), (states[1], outs[0])));
    assert(writes_ran(*write, c0, plan, states, stmts, outs));
    match created {
        Ok(()) => {},
        Err(m) => {
            return (c1, Err(save_err("<connection>", table, m)));
        },
    }
    let width = df_width(df);
    let insert_sql = insert_statement(table, width);
    let prep = WriteStatement::Prepare(insert_sql.clone());
    let ghost cg1 = c1;
    let (c2, prepared) = write(c1, &prep);
    proof {
        states = states.push(c2);
        stmts = stmts.push(prep);
        outs = outs.push(prepared);
        assert(call_ensures(*write, (states[1], &stmts[1]), (states[2], outs[1])));
        assert(outs[0] is Ok);
        assert(writes_ran(*write, c0, plan, states, stmts, outs));
    }
    match prepared {
        Ok(()) => {},
        Err(m) => {
            return (c2, Err(save_err("<connection>", table, m)));
        },
    }
    let height = df_height(df);
    let mut c = c2;
    let mut row: usize = 0;
    while row < height
        invariant
            height == polars_height(*df),
            plan == write_plan(table@, cols, height as nat),
            cols == polars_columns(*df),
            insert_sql@ == insert_text(table@, cols.len()),
            row <= height,
            forall|cc: C, st: &WriteStatement| call_requires(*write, (cc, st)),
            writes_ran(*write, c0, plan, states, stmts, outs),
            stmts.len() == row + 2,
            outs.last() is Ok,
            states.last() == c,
            c0 == conn,
        decreases height - row,
    {
        let values = row_values(df, row);
        let ins = WriteStatement::Insert(insert_sql.clone(), values);
        let ghost cg = c;
        let (cn, ran) = write(c, &ins);
        proof {
            let k = stmts.len() as int;
            assert(ins@ == plan[k]);
            states = states.push(cn);
            stmts = stmts.push(ins);
            outs = outs.push(ran);
            assert(call_ensures(*write, (states[k], &stmts[k]), (states[k + 1], outs[k])));
            assert(writes_ran(*write, c0, plan, states, stmts, outs));
        }
        match ran {
            Ok(()) => {},
            Err(m) => {
                return (cn, Err(save_err("<connection>", table, m)));
            },
        }
        c = cn;
        row = row + 1;
    }
    (c, Ok(()))
}

/// The text connectorx shows for a query it refuses: `SqlQueryNotSupported(detail)`.
pub open spec fn sql_not_supported_text(detail: Seq<char>) -> Seq<char> {
    "Only support single query with SELECT statement, got "@ + detail + "."@
}

/// Calls connectorx's `ConnectorXError::SqlQueryNotSupported(detail)` and gives its `Display`
/// text, which its `#[error]` attribute spells as stated.
#[verifier::external_body]
fn sql_query_not_supported(detail: String) -> (r: String)
    ensures
        r@ == sql_not_supported_text(detail@),
{
    connectorx::errors::ConnectorXError::SqlQueryNotSupported(detail).to_string()
}

/// What connectorx's `ArrowDestination::polars` gives for a destination whose column names
/// are distinct: the columns of the frame it makes of the record batches the destination holds
/// (each with its name and values), or the text of its error.
pub uninterp spec fn polars_conversion(d: ArrowDestination) -> Result<Seq<(Seq<char>, ValuesView)>, Seq<char>>;

/// The names of the columns an Arrow destination holds, in order (`ArrowDestination::names`).
pub uninterp spec fn destination_names(d: ArrowDestination) -> Seq<Seq<char>>;

/// Calls connectorx's `ArrowDestination::names`.
#[verifier::external_body]
fn destination_column_names(destination: &ArrowDestination) -> (r: Vec<String>)
    ensures
        views(r@) == destination_names(*destination),
{
    destination.names().iter().map(|n| n.to_string()).collect()
}

/// Calls connectorx's `ArrowDestination::polars`, which turns the record batches the destination
/// holds into one polars `DataFrame`, its columns named as the destination's; the outcome is
/// named `polars_conversion`, an error handed back as its `Display` text. The call builds each
/// batch's frame with polars' `DataFrame::from_iter`, which panics on two columns of one name,
/// so the names must be distinct.
#[verifier::external_body]
fn arrow_to_polars(destination: ArrowDestination) -> (r: Result<DataFrame, String>)
    requires
        destination_names(destination).no_duplicates(),
    ensures
        match r {
            Ok(df) => {
                &&& polars_conversion(destination) == Ok::<Seq<(Seq<char>, ValuesView)>, Seq<char>>(polars_columns(df))
                &&& polars_columns(df).map_values(|c: (Seq<char>, ValuesView)| c.0) == destination_names(destination)
            },
            Err(m) => polars_conversion(destination) == Err::<Seq<(Seq<char>, ValuesView)>, Seq<char>>(m@),
        },
{
    destination.polars().map_err(|e| e.to_string())
}

/// The text of polars' error for a frame with two columns named `name`.
pub open spec fn duplicate_column_text(name: Seq<char>) -> Seq<char> {
    "column with name '"@ + name + "' has more than one occurrence"@
}

/// Whether `names[k]` is the repeated name polars reports for frame columns named `names`
/// (`ensure_names_unique`): among at most four names, the first name that occurs again later;
/// among more, the first name, in order, that occurred before.
pub open spec fn reported_duplicate_at(names: Seq<Seq<char>>, k: int) -> bool {
    &&& 0 <= k < names.len()
    &&& if names.len() <= 4 {
        &&& exists|m: int| k < m < names.len() && #[trigger] names[m] == names[k]
        &&& forall|i: int, m: int| 0 <= i < k && i < m < names.len() ==> #[trigger] names[i] != #[trigger] names[m]
    } else {
        &&& exists|i: int| 0 <= i < k && #[trigger] names[i] == names[k]
        &&& forall|i: int, j: int| 0 <= i < j < k ==> #[trigger] names[i] != #[trigger] names[j]
    }
}

/// The position of the repeated name polars reports, if any name repeats.
fn reported_duplicate(names: &Vec<String>) -> (r: Option<usize>)
    ensures
        r is None <==> views(names@).no_duplicates(),
        r matches Some(k) ==> reported_duplicate_at(views(names@), k as int),
{
    let ghost v = views(names@);
    let n = names.len();
    assert(v.len() == n);
    if n <= 4 {
        let mut k: usize = 0;
        while k < n
            invariant
                n == names@.len(),
                v == views(names@),
                v.len() == n,
                n <= 4,
                k <= n,
                forall|i: int, m: int| 0 <= i < k && i < m < n ==> #[trigger] v[i] != #[trigger] v[m],
            decreases n - k,
        {
            let mut m: usize = k + 1;
            while m < n
                invariant
                    n == names@.len(),
                    v == views(names@),
                    v.len() == n,
                    n <= 4,
                    k < n,
                    k + 1 <= m <= n,
                    forall|i: int, mm: int| 0 <= i < k && i < mm < n ==> #[trigger] v[i] != #[trigger] v[mm],
                    forall|mm: int| k < mm < m ==> #[trigger] v[mm] != v[k as int],
                decreases n - m,
            {
                if str_eq(names[k].as_str(), names[m].as_str()) {
                    assert(v[m as int] == v[k as int]);
                    assert(k < m < v.len() && v[m as int] == v[k as int]);
                    assert(reported_duplicate_at(v, k as int));
                    assert(!v.no_duplicates()) by {
                        assert(v[k as int] == v[m as int]);
                    }
                    return Some(k);
                }
                m = m + 1;
            }
            k = k + 1;
        }
        proof {
            assert forall|a: int, b: int| 0 <= a < v.len() && 0 <= b < v.len() && a != b implies v[a] != v[b] by {
                if a < b {
                    assert(v[a] != v[b]);
                } else {
                    assert(v[b] != v[a]);
                }
            }
        }
        None
    } else {
        let mut j: usize = 0;
        while j < n
            invariant
                n == names@.len(),
                v == views(names@),
                v.len() == n,
                n > 4,
                j <= n,
                forall|a: int, b: int| 0 <= a < b < j ==> #[trigger] v[a] != #[trigger] v[b],
            decreases n - j,
        {
            let mut i: usize = 0;
            while i < j
                invariant
                    n == names@.len(),
                    v == views(names@),
                    v.len() == n,
                    n > 4,
                    i <= j < n,
                    forall|a: int, b: int| 0 <= a < b < j ==> #[trigger] v[a] != #[trigger] v[b],
                    forall|a: int| 0 <= a < i ==> #[trigger] v[a] != v[j as int],
                decreases j - i,
            {
                if str_eq(names[i].as_str(), names[j].as_str()) {
                    assert(v[i as int] == v[j as int]);
                    assert(0 <= i < j && v[i as int] == v[j as int]);
                    assert(reported_duplicate_at(v, j as int));
                    return Some(j);
                }
                i = i + 1;
            }
            j = j + 1;
        }
        proof {
            assert forall|a: int, b: int| 0 <= a < v.len() && 0 <= b < v.len() && a != b implies v[a] != v[b] by {
                if a < b {
                    assert(v[a] != v[b]);
                } else {
                    assert(v[b] != v[a]);
                }
            }
        }
        None
    }
}

/// Whether `r` is what turning the loaded destination `d` into a frame gives: when two columns
/// share a name, polars' duplicate-name error for the name it reports; otherwise the frame
/// connectorx makes of `d`, or connectorx's error.
pub open spec fn converted(d: ArrowDestination, r: Result<DataFrame, PoliteErrorView>) -> bool {
    if !destination_names(d).no_duplicates() {
        exists|k: int|
            #![trigger reported_duplicate_at(destination_names(d), k)]
            reported_duplicate_at(destination_names(d), k) && r == Err::<DataFrame, PoliteErrorView>(
                PoliteErrorView::ArrowToPolars { source: duplicate_column_text(destination_names(d)[k]) },
            )
    } else {
        match polars_conversion(d) {
            Ok(cols) => r matches Ok(df) && polars_columns(df) == cols,
            Err(m) => r == Err::<DataFrame, PoliteErrorView>(PoliteErrorView::ArrowToPolars { source: m }),
        }
    }
}

/// The view of a frame result.
pub open spec fn frame_result_view(r: Result<DataFrame, PoliteError>) -> Result<DataFrame, PoliteErrorView> {
    match r {
        Ok(df) => Ok(df),
        Err(e) => Err(e@),
    }
}

/// Turns the record batches a load gave into a frame, as connectorx's
/// `ArrowDestination::polars` does; where two columns share a name, where that call would
/// panic, it gives polars' duplicate-name error for the name polars reports instead.
pub fn frame_from_destination(d: ArrowDestination) -> (r: Result<DataFrame, PoliteError>)
    ensures
        converted(d, frame_result_view(r)),
{
    let names = destination_column_names(&d);
    match reported_duplicate(&names) {
        Some(k) => {
            let mut msg = owned("column with name '");
            msg.append(names[k].as_str());
            msg.append("' has more than one occurrence");
            let r = Err(PoliteError::ArrowToPolars { source: msg });
            assert(reported_duplicate_at(destination_names(d), k as int));
            r
        },
        None => {
            match arrow_to_polars(d) {
                Ok(f) => {
                    let r = Ok(f);
                    assert(polars_columns(r->Ok_0) == polars_columns(f));
                    r
                },
                Err(e) => Err(PoliteError::ArrowToPolars { source: e }),
            }
        },
    }
}

/// The query `sql`, as written, loaded from the database at `db_path`: `dispatch` took `loader`
/// and gave `loader_end` and `outcome`, on the database path of `sqlite://<db_path>` (which
/// parsed) and the single query `sql`.
pub open spec fn query_dispatched<T, FD: Fn(T, &str, &Vec<CXQuery>, Option<String>) -> (T, Result<ArrowDestination, OutError>)>(
    dispatch: FD,
    loader: T,
    db_path: &str,
    sql: &str,
    loader_end: T,
    outcome: Result<ArrowDestination, OutError>,
) -> bool {
    parsed_connection_parts("sqlite://"@ + db_path@) matches Ok((name, url, proto)) && exists|p: &str, qs: Vec<CXQuery>|
        #![trigger call_ensures(dispatch, (loader, p, &qs, None::<String>), (loader_end, outcome))]
        {
            &&& p@ == sqlite_path(url)
            &&& query_views(qs@) == seq![CXQueryView::Naked(sql@)]
            &&& call_ensures(dispatch, (loader, p, &qs, None::<String>), (loader_end, outcome))
        }
}

/// The database at `db_path` opened as `c` and `check` accepted `sql` on it.
pub open spec fn query_accepted<C, FO: Fn(&str) -> Result<C, String>, FC: Fn(&C, &str) -> Result<(), String>>(
    open: FO,
    check: FC,
    db_path: &str,
    sql: &str,
    c: C,
) -> bool {
    &&& call_ensures(open, (db_path,), Ok::<C, String>(c))
    &&& exists|accepted: Result<(), String>|
        #![trigger call_ensures(check, (&c, sql), accepted)]
        accepted is Ok && call_ensures(check, (&c, sql), accepted)
}

/// Running `sql` on the database at `db_path` gave the frame `df`: `open` opened the database,
/// `check` accepted the query, the connection string `sqlite://<db_path>` parsed, `dispatch`
/// loaded the query (as written) from the database path into the destination `d`, and `df` is
/// the frame made of `d` (`converted`).
pub open spec fn frame_loaded<
    T,
    C,
    FO: Fn(&str) -> Result<C, String>,
    FC: Fn(&C, &str) -> Result<(), String>,
    FD: Fn(T, &str, &Vec<CXQuery>, Option<String>) -> (T, Result<ArrowDestination, OutError>),
>(open: FO, check: FC, dispatch: FD, loader: T, db_path: &str, sql: &str, loader_end: T, df: DataFrame) -> bool {
    &&& exists|c: C| #![trigger call_ensures(open, (db_path,), Ok::<C, String>(c))] query_accepted(open, check, db_path, sql, c)
    &&& exists|d: ArrowDestination|
        #![trigger query_dispatched(dispatch, loader, db_path, sql, loader_end, Ok::<ArrowDestination, OutError>(d))]
        {
            &&& query_dispatched(dispatch, loader, db_path, sql, loader_end, Ok::<ArrowDestination, OutError>(d))
            &&& converted(d, Ok::<DataFrame, PoliteErrorView>(df))
        }
}

/// What loading `sql` from the database at `db_path` failed with, once the database opened and
/// the query was accepted: a connection string `sqlite://<db_path>` that does not parse (its
/// error as `Query`, nothing loaded); or, with the string parsed, a failed load of the query (as
/// written) from the database path (`Arrow`); or, with the load done, a failed conversion of the
/// batches into a frame (`ArrowToPolars`, as `converted` gives it).
pub open spec fn load_step_failed<T, FD: Fn(T, &str, &Vec<CXQuery>, Option<String>) -> (T, Result<ArrowDestination, OutError>)>(
    dispatch: FD,
    loader: T,
    db_path: &str,
    sql: &str,
    loader_end: T,
    e: PoliteErrorView,
) -> bool {
    match parsed_connection_parts("sqlite://"@ + db_path@) {
        Err(s) => e == PoliteErrorView::Query { db_path: db_path@, source: s } && loader_end == loader,
        Ok(_) => {
            ||| exists|oe: OutError|
                #![trigger query_dispatched(dispatch, loader, db_path, sql, loader_end, Err::<ArrowDestination, OutError>(oe))]
                query_dispatched(dispatch, loader, db_path, sql, loader_end, Err::<ArrowDestination, OutError>(oe))
                    && e == PoliteErrorView::Arrow { db_path: db_path@, source: out_message(oe@) }
            ||| exists|d: ArrowDestination|
                #![trigger query_dispatched(dispatch, loader, db_path, sql, loader_end, Ok::<ArrowDestination, OutError>(d))]
                query_dispatched(dispatch, loader, db_path, sql, loader_end, Ok::<ArrowDestination, OutError>(d))
                    && converted(d, Err::<DataFrame, PoliteErrorView>(e))
        },
    }
}

/// Running `sql` on the database at `db_path` failed with `e`, at the first step that failed:
/// opening the database (`Connect`); or, with it open as `c`, the check of the query on `c`
/// (`Query`, the check's text wrapped as connectorx's `SqlQueryNotSupported`); or, with the
/// query accepted, one of the loading steps (`load_step_failed`). When the failure comes before
/// the load, nothing was loaded: the loader comes back as it was given.
pub open spec fn frame_load_failed<
    T,
    C,
    FO: Fn(&str) -> Result<C, String>,
    FC: Fn(&C, &str) -> Result<(), String>,
    FD: Fn(T, &str, &Vec<CXQuery>, Option<String>) -> (T, Result<ArrowDestination, OutError>),
>(open: FO, check: FC, dispatch: FD, loader: T, db_path: &str, sql: &str, loader_end: T, e: PoliteErrorView) -> bool {
    ||| loader_end == loader && exists|ms: String|
        #![trigger call_ensures(open, (db_path,), Err::<C, String>(ms))]
        call_ensures(open, (db_path,), Err::<C, String>(ms)) && e == PoliteErrorView::Connect { db_path: db_path@, source: ms@ }
    ||| exists|c: C|
        #![trigger call_ensures(open, (db_path,), Ok::<C, String>(c))]
        call_ensures(open, (db_path,), Ok::<C, String>(c)) && {
            ||| loader_end == loader && exists|ms: String|
                #![trigger call_ensures(check, (&c, sql), Err::<(), String>(ms))]
                call_ensures(check, (&c, sql), Err::<(), String>(ms))
                    && e == PoliteErrorView::Query { db_path: db_path@, source: sql_not_supported_text(ms@) }
            ||| query_accepted(open, check, db_path, sql, c) && load_step_failed(dispatch, loader, db_path, sql, loader_end, e)
        }
}

/// Whether `r` is what running `sql` on the database at `db_path` gives, with the loader ending
/// as `loader_end`: a frame (`frame_loaded`) or the error of the first step that failed
/// (`frame_load_failed`).
pub open spec fn frame_outcome<
    T,
    C,
    FO: Fn(&str) -> Result<C, String>,
    FC: Fn(&C, &str) -> Result<(), String>,
    FD: Fn(T, &str, &Vec<CXQuery>, Option<String>) -> (T, Result<ArrowDestination, OutError>),
>(open: FO, check: FC, dispatch: FD, loader: T, db_path: &str, sql: &str, loader_end: T, r: Result<DataFrame, PoliteErrorView>) -> bool {
    match r {
        Ok(df) => frame_loaded(open, check, dispatch, loader, db_path, sql, loader_end, df),
        Err(e) => frame_load_failed(open, check, dispatch, loader, db_path, sql, loader_end, e),
    }
}

/// A query run into a frame is loaded as written: when it gives a frame, or fails in the load
/// itself (`Arrow`), the loader was handed exactly one query, the text of `sql` unchanged and
/// unwrapped, with no origin query; a frame is the conversion of what that load gave.
pub proof fn law_query_loaded_as_written<
    T,
    C,
    FO: Fn(&str) -> Result<C, String>,
    FC: Fn(&C, &str) -> Result<(), String>,
    FD: Fn(T, &str, &Vec<CXQuery>, Option<String>) -> (T, Result<ArrowDestination, OutError>),
>(open: FO, check: FC, dispatch: FD, loader: T, db_path: &str, sql: &str, loader_end: T, r: Result<DataFrame, PoliteErrorView>)
    requires
        frame_outcome(open, check, dispatch, loader, db_path, sql, loader_end, r),
    ensures
        r is Ok ==> exists|p: &str, qs: Vec<CXQuery>, d: ArrowDestination|
            #![trigger call_ensures(dispatch, (loader, p, &qs, None::<String>), (loader_end, Ok::<ArrowDestination, OutError>(d)))]
            {
                &&& qs@.len() == 1
                &&& qs@[0]@ == CXQueryView::Naked(sql@)
                &&& call_ensures(dispatch, (loader, p, &qs, None::<String>), (loader_end, Ok::<ArrowDestination, OutError>(d)))
                &&& converted(d, r)
            },
        r is Err && r->Err_0 is Arrow ==> exists|p: &str, qs: Vec<CXQuery>, oe: OutError|
            #![trigger call_ensures(dispatch, (loader, p, &qs, None::<String>), (loader_end, Err::<ArrowDestination, OutError>(oe)))]
            {
                &&& qs@.len() == 1
                &&& qs@[0]@ == CXQueryView::Naked(sql@)
                &&& call_ensures(dispatch, (loader, p, &qs, None::<String>), (loader_end, Err::<ArrowDestination, OutError>(oe)))
                &&& r->Err_0->Arrow_source == out_message(oe@)
            },
{
    match r {
        Ok(df) => {
            let d = choose|d: ArrowDestination|
                #![trigger query_dispatched(dispatch, loader, db_path, sql, loader_end, Ok::<ArrowDestination, OutError>(d))]
                query_dispatched(dispatch, loader, db_path, sql, loader_end, Ok::<ArrowDestination, OutError>(d))
                    && converted(d, Ok::<DataFrame, PoliteErrorView>(df));
            let (p, qs) = choose|p: &str, qs: Vec<CXQuery>| {
                &&& p@ == sqlite_path(parsed_connection_parts("sqlite://"@ + db_path@)->Ok_0.1)
                &&& query_views(qs@) == seq![CXQueryView::Naked(sql@)]
                &&& call_ensures(dispatch, (loader, p, &qs, None::<String>), (loader_end, Ok::<ArrowDestination, OutError>(d)))
            };
            assert(query_views(qs@).len() == 1);
            assert(qs@[0]@ == query_views(qs@)[0]);
        },
        Err(e) => {
            if e is Arrow {
                let oe = choose|oe: OutError|
                    #![trigger query_dispatched(dispatch, loader, db_path, sql, loader_end, Err::<ArrowDestination, OutError>(oe))]
                    query_dispatched(dispatch, loader, db_path, sql, loader_end, Err::<ArrowDestination, OutError>(oe))
                        && e == PoliteErrorView::Arrow { db_path: db_path@, source: out_message(oe@) };
                let (p, qs) = choose|p: &str, qs: Vec<CXQuery>| {
                    &&& p@ == sqlite_path(parsed_connection_parts("sqlite://"@ + db_path@)->Ok_0.1)
                    &&& query_views(qs@) == seq![CXQueryView::Naked(sql@)]
                    &&& call_ensures(dispatch, (loader, p, &qs, None::<String>), (loader_end, Err::<ArrowDestination, OutError>(oe)))
                };
                assert(query_views(qs@).len() == 1);
            assert(qs@[0]@ == query_views(qs@)[0]);
            }
        },
    }
}

/// Whether `open` gives one outcome for one path: two calls with paths of the same text give
/// the same outcome (as opening a database that did not change between the two does).
pub open spec fn open_path_is_functional<C, FO: Fn(&str) -> Result<C, String>>(open: FO) -> bool {
    forall|p1: &str, p2: &str, r1: Result<C, String>, r2: Result<C, String>|
        #![trigger call_ensures(open, (p1,), r1), call_ensures(open, (p2,), r2)]
        p1@ == p2@ && call_ensures(open, (p1,), r1) && call_ensures(open, (p2,), r2) ==> r1 == r2
}

/// Whether `check` gives one outcome for one query on one connection.
pub open spec fn check_is_functional<C, FC: Fn(&C, &str) -> Result<(), String>>(check: FC) -> bool {
    forall|c: &C, q1: &str, q2: &str, r1: Result<(), String>, r2: Result<(), String>|
        #![trigger call_ensures(check, (c, q1), r1), call_ensures(check, (c, q2), r2)]
        q1@ == q2@ && call_ensures(check, (c, q1), r1) && call_ensures(check, (c, q2), r2) ==> r1 == r2
}

/// With an `open`, a `check` and a `dispatch` that each give one outcome for one input, running
/// a query into a frame has one outcome: the loader ends the same, and both runs give frames of
/// the same columns, or the same error.
pub proof fn lemma_frame_outcome_functional<
    T,
    C,
    FO: Fn(&str) -> Result<C, String>,
    FC: Fn(&C, &str) -> Result<(), String>,
    FD: Fn(T, &str, &Vec<CXQuery>, Option<String>) -> (T, Result<ArrowDestination, OutError>),
>(
    open: FO,
    check: FC,
    dispatch: FD,
    loader: T,
    db_path: &str,
    sql: &str,
    e1: T,
    r1: Result<DataFrame, PoliteErrorView>,
    e2: T,
    r2: Result<DataFrame, PoliteErrorView>,
)
    requires
        open_path_is_functional(open),
        check_is_functional(check),
        dispatch_is_functional(dispatch),
        frame_outcome(open, check, dispatch, loader, db_path, sql, e1, r1),
        frame_outcome(open, check, dispatch, loader, db_path, sql, e2, r2),
    ensures
        e1 == e2,
        r1 is Ok <==> r2 is Ok,
        r1 is Ok ==> polars_columns(r1->Ok_0) == polars_columns(r2->Ok_0),
        r1 is Err ==> r1 == r2,
{
}

/// Runs the query `sql` on the SQLite database at `db_path` and gives its result as a polars
/// `DataFrame`: opens the database with `open` and has `check` vet the query there first, then
/// loads the query through connectorx (`dispatch`, which takes the `loader` and hands it back)
/// in Arrow and converts the batches into a frame. When it fails before loading, the loader
/// comes back untouched.
pub fn to_dataframe<T, C, FO, FC, FD>(
    loader: T,
    db_path: &str,
    sql: &str,
    open: &FO,
    check: &FC,
    dispatch: &FD,
) -> (r: (T, Result<DataFrame, PoliteError>))
    where
        FO: Fn(&str) -> Result<C, String>,
        FC: Fn(&C, &str) -> Result<(), String>,
        FD: Fn(T, &str, &Vec<CXQuery>, Option<String>) -> (T, Result<ArrowDestination, OutError>),
    requires
        forall|p: &str| call_requires(*open, (p,)),
        forall|c: &C, q: &str| call_requires(*check, (c, q)),
        forall|t: T, p: &str, qs: &Vec<CXQuery>, o: Option<String>| call_requires(*dispatch, (t, p, qs, o)),
    ensures
        frame_outcome(*open, *check, *dispatch, loader, db_path, sql, r.0, frame_result_view(r.1)),
{
    let ghost loader0 = loader;
    let opened = open(db_path);
    let preflight = match opened {
        Ok(c) => c,
        Err(e) => {
            return (loader, Err(PoliteError::Connect { db_path: owned(db_path), source: e }));
        },
    };
    assert(call_ensures(*open, (db_path,), Ok::<C, String>(preflight)));
    let checked = check(&preflight, sql);
    match checked {
        Ok(()) => {},
        Err(e) => {
            return (loader, Err(PoliteError::Query { db_path: owned(db_path), source: sql_query_not_supported(e) }));
        },
    }
    assert(call_ensures(*check, (&preflight, sql), checked));
    assert(query_accepted(*open, *check, db_path, sql, preflight));
    let conn_text = concat2("sqlite://", db_path);
    proof {
        reveal_strlit("sqlite://");
        assert("sqlite://"@.is_prefix_of(conn_text@));
    }
    let conn = match SourceConn::parse(conn_text.as_str()) {
        Ok(c) => c,
        Err(e) => {
            return (loader, Err(PoliteError::Query { db_path: owned(db_path), source: e }));
        },
    };
    proof {
        assert(conn.url().len() >= 9);
    }
    let mut queries: Vec<CXQuery> = Vec::new();
    queries.push(CXQuery::naked(sql));
    assert(query_views(queries@) =~= seq![CXQueryView::Naked(sql@)]);
    let loaded = get_arrow(loader, &conn, None, &queries, None, dispatch);
    let ghost loaded_g = loaded;
    let ghost p = choose|p: &str|
        p@ == sqlite_path(conn.url()) && call_ensures(*dispatch, (loader0, p, &queries, None::<String>), loaded_g);
    let (loader_end, outcome) = loaded;
    let arrow = match outcome {
        Ok(d) => d,
        Err(e) => {
            assert(call_ensures(*dispatch, (loader0, p, &queries, None::<String>), (loader_end, Err::<ArrowDestination, OutError>(e))));
            assert(query_dispatched(*dispatch, loader0, db_path, sql, loader_end, Err::<ArrowDestination, OutError>(e)));
            return (loader_end, Err(PoliteError::Arrow { db_path: owned(db_path), source: e.message() }));
        },
    };
    assert(call_ensures(*dispatch, (loader0, p, &queries, None::<String>), (loader_end, Ok::<ArrowDestination, OutError>(arrow))));
    assert(query_dispatched(*dispatch, loader0, db_path, sql, loader_end, Ok::<ArrowDestination, OutError>(arrow)));
    let ghost d = arrow;
    let framed = frame_from_destination(arrow);
    assert(converted(d, frame_result_view(framed)));
    match framed {
        Ok(f) => {
            let out = (loader_end, Ok(f));
            assert(converted(d, Ok::<DataFrame, PoliteErrorView>(out.1->Ok_0)));
            out
        },
        Err(e) => {
            let out = (loader_end, Err(e));
            assert(converted(d, Err::<DataFrame, PoliteErrorView>(out.1->Err_0@)));
            out
        },
    }
}

} // verus!
