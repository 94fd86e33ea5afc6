//! # polite: SQLite and data frames
//!
//! Moves data between SQLite databases and data frames: runs a query into a frame
//! (`to_dataframe`), writes a frame into a table (`from_dataframe`), and offers the two
//! convenience wrappers `load_dataframe` and `save_dataframe`, whose errors are always a
//! `Load` or a `Save` error respectively.
//!
//! The database work itself (opening a database, running a statement, loading a query
//! through connectorx) is handed to the caller's closures; the library decides what runs, on
//! what, in which order, and what each outcome is reported as. A closure that changes the
//! database takes the connection and gives it back, and the closures that load a query or open
//! a database for a lookup take a token (`loader`, `access`) and give it back, so that the
//! contracts can say which calls were made, in which order, and that no other was: a token
//! that comes back as it was given shows that its closure did not run. Loaded Arrow batches
//! become a polars `DataFrame` through connectorx.
use vstd::prelude::*;

pub mod cli;
pub mod constants;
pub mod dataframe;
pub mod db;
pub mod error;
pub mod frame;
pub mod get_arrow;
pub mod outside;
pub mod partition;
pub mod prelude;
pub mod source;
pub mod statements;
pub mod text;
pub mod types;

pub use dataframe::{from_dataframe, to_dataframe};
pub use db::{connect_sqlite, execute_query};
pub use error::PoliteError;

use dataframe::{
    WriteStatement, check_is_functional, frame_load_failed, frame_loaded, frame_outcome, frame_result_view,
    lemma_frame_outcome_functional, lemma_plan_written_functional, open_path_is_functional, plan_written,
    unit_result_view, write_is_functional, write_plan,
};
use db::{opened_at, sqlite_connected};
use get_arrow::dispatch_is_functional;
use error::{OutError, PoliteErrorView, polite_message};
use frame::{polars_columns, polars_height};
use source::CXQuery;
use text::owned;
use connectorx::destinations::arrow::ArrowDestination;
use polars::prelude::DataFrame;

verus! {

/// Whether `r` is what `load_dataframe` gives for `sql` on the database at `db_path`, with the
/// loader ending as `loader_end`: the frame `to_dataframe` gives (`frame_loaded`), or a `Load`
/// error of `db_path` carrying the text of the error `to_dataframe` gives
/// (`frame_load_failed`).
pub open spec fn frame_load_outcome<
    T,
    C,
    FO: Fn(&str) -> Result<C, String>,
    FC: Fn(&C, &str) -> Result<(), String>,
    FD: Fn(T, &str, &Vec<CXQuery>, Option<String>) -> (T, Result<ArrowDestination, OutError>),
>(open: FO, check: FC, dispatch: FD, loader: T, db_path: &str, sql: &str, loader_end: T, r: Result<DataFrame, PoliteErrorView>) -> bool {
    match r {
        Ok(df) => frame_loaded(open, check, dispatch, loader, db_path, sql, loader_end, df),
        Err(e) => e matches PoliteErrorView::Load { db_path: dp, source: s } && dp == db_path@
            && exists|inner: PoliteErrorView|
            #![trigger frame_load_failed(open, check, dispatch, loader, db_path, sql, loader_end, inner)]
            frame_load_failed(open, check, dispatch, loader, db_path, sql, loader_end, inner) && s
                == polite_message(inner),
    }
}

/// `load_dataframe` gives what `to_dataframe` gives for the same query, database and loader:
/// a frame of the same columns when `to_dataframe` gives a frame, and otherwise the `Load`
/// error of the database carrying the text of `to_dataframe`'s error; the loader ends the same.
/// This holds when opening the database, checking the query and loading it each give one
/// outcome for one input (the database does not change between the two runs).
pub proof fn law_load_dataframe_is_to_dataframe<
    T,
    C,
    FO: Fn(&str) -> Result<C, String>,
    FC: Fn(&C, &str) -> Result<(), String>,
    FD: Fn(T, &str, &Vec<CXQuery>, Option<String>) -> (T, Result<ArrowDestination, OutError>),
>(
    open: FO,
    check: FC,
    dispatch: FD,
    loader: T,
    db_path: &str,
    sql: &str,
    to_end: T,
    to_result: Result<DataFrame, PoliteErrorView>,
    load_end: T,
    load_result: Result<DataFrame, PoliteErrorView>,
)
    requires
        open_path_is_functional(open),
        check_is_functional(check),
        dispatch_is_functional(dispatch),
        frame_outcome(open, check, dispatch, loader, db_path, sql, to_end, to_result),
        frame_load_outcome(open, check, dispatch, loader, db_path, sql, load_end, load_result),
    ensures
        load_end == to_end,
        match to_result {
            Ok(df) => load_result matches Ok(ldf) && polars_columns(ldf) == polars_columns(df),
            Err(e) => load_result == Err::<DataFrame, PoliteErrorView>(PoliteErrorView::Load { db_path: db_path@, source: polite_message(e) }),
        },
{
    match load_result {
        Ok(ldf) => {
            lemma_frame_outcome_functional(open, check, dispatch, loader, db_path, sql, to_end, to_result, load_end, load_result);
        },
        Err(e) => {
            let inner = choose|inner: PoliteErrorView|
                #![trigger frame_load_failed(open, check, dispatch, loader, db_path, sql, load_end, inner)]
                frame_load_failed(open, check, dispatch, loader, db_path, sql, load_end, inner) && e->Load_source
                    == polite_message(inner);
            assert(frame_outcome(open, check, dispatch, loader, db_path, sql, load_end, Err::<DataFrame, PoliteErrorView>(inner)));
            lemma_frame_outcome_functional(open, check, dispatch, loader, db_path, sql, to_end, to_result, load_end, Err::<DataFrame, PoliteErrorView>(inner));
        },
    }
}

/// Runs `sql` on the database at `db_path` into a frame, as `to_dataframe` does, with the same
/// `loader`; any failure is reported as a `Load` error of `db_path` carrying the text of the
/// underlying error.
pub fn load_dataframe<T, C, FO, FC, FD>(
    loader: T,
    db_path: &str,
    sql: &str,
    open: &FO,
    check: &FC,
    dispatch: &FD,
) -> (r: (T, Result<DataFrame, PoliteError>))
    where
        FO: Fn(&str) -> Result<C, String>,
        FC: Fn(&C, &str) -> Result<(), String>,
        FD: Fn(T, &str, &Vec<CXQuery>, Option<String>) -> (T, Result<ArrowDestination, OutError>),
    requires
        forall|p: &str| call_requires(*open, (p,)),
        forall|c: &C, q: &str| call_requires(*check, (c, q)),
        forall|t: T, p: &str, qs: &Vec<CXQuery>, o: Option<String>| call_requires(*dispatch, (t, p, qs, o)),
    ensures
        frame_load_outcome(*open, *check, *dispatch, loader, db_path, sql, r.0, frame_result_view(r.1)),
{
    let ghost loader0 = loader;
    let (loader_end, loaded) = to_dataframe(loader, db_path, sql, open, check, dispatch);
    match loaded {
        Ok(f) => {
            let out = (loader_end, Ok(f));
            assert(frame_loaded(*open, *check, *dispatch, loader, db_path, sql, out.0, out.1->Ok_0));
            out
        },
        Err(e) => {
            let ghost inner = e@;
            let out = (loader_end, Err(PoliteError::Load { db_path: owned(db_path), source: e.message() }));
            assert(out.1->Err_0@ == (PoliteErrorView::Load { db_path: db_path@, source: polite_message(inner) }));
            assert(frame_load_failed(*open, *check, *dispatch, loader, db_path, sql, out.0, inner));
            out
        },
    }
}

/// Whether `r` is what saving `df` into the table `table` of the database at `db_path` gives:
/// `Ok` when `open` opened the database and every statement of the write plan succeeded on that
/// connection (`plan_written`); otherwise a `Save` error of the table carrying the text of the
/// failure, the refused opening (as a `Connect` error) or the failed statement.
pub open spec fn frame_saved<C, FO: Fn(&str) -> Result<C, String>, FW: Fn(C, &WriteStatement) -> (C, Result<(), String>)>(
    open: FO,
    write: FW,
    db_path: Seq<char>,
    table: Seq<char>,
    df: DataFrame,
    r: Result<(), PoliteErrorView>,
) -> bool {
    let plan = write_plan(table, polars_columns(df), polars_height(df));
    match r {
        Ok(_) => exists|c: C, c_end: C|
            #![trigger opened_at(open, Some(db_path), c), plan_written(write, c, plan, table, c_end, Ok(()))]
            opened_at(open, Some(db_path), c) && plan_written(write, c, plan, table, c_end, Ok(())),
        Err(e) => e matches PoliteErrorView::Save { db_path: dp, table_name: tn, source: s } && {
            &&& dp == db_path
            &&& tn == table
            &&& {
                ||| exists|ce: PoliteErrorView|
                    #![trigger sqlite_connected(open, Some(db_path), Err::<C, PoliteErrorView>(ce))]
                    sqlite_connected(open, Some(db_path), Err::<C, PoliteErrorView>(ce)) && s == polite_message(ce)
                ||| exists|c: C, c_end: C, inner: PoliteErrorView|
                    #![trigger opened_at(open, Some(db_path), c), plan_written(write, c, plan, table, c_end, Err(inner))]
                    {
                        &&& opened_at(open, Some(db_path), c)
                        &&& plan_written(write, c, plan, table, c_end, Err(inner))
                        &&& s == polite_message(inner)
                    }
            }
        },
    }
}

/// `save_dataframe` is opening the database (`connect_sqlite`) and writing the frame on that
/// connection (`from_dataframe`): it succeeds exactly when both do, and otherwise gives the
/// `Save` error of the table carrying the text of the first failure. This holds when opening
/// the database and running each statement give one outcome for one input (the database is in
/// the same state for both).
pub proof fn law_save_is_connect_then_write<C, FO: Fn(&str) -> Result<C, String>, FW: Fn(C, &WriteStatement) -> (C, Result<(), String>)>(
    open: FO,
    write: FW,
    db_path: Seq<char>,
    table: Seq<char>,
    df: DataFrame,
    connected: Result<C, PoliteErrorView>,
    written_end: C,
    written: Result<(), PoliteErrorView>,
    saved: Result<(), PoliteErrorView>,
)
    requires
        open_path_is_functional(open),
        write_is_functional(write),
        sqlite_connected(open, Some(db_path), connected),
        connected is Ok ==> plan_written(write, connected->Ok_0, write_plan(table, polars_columns(df), polars_height(df)), table, written_end, written),
        frame_saved(open, write, db_path, table, df, saved),
    ensures
        connected is Err ==> saved == Err::<(), PoliteErrorView>(
            PoliteErrorView::Save { db_path, table_name: table, source: polite_message(connected->Err_0) },
        ),
        connected is Ok && written is Ok ==> saved is Ok,
        connected is Ok && written is Err ==> saved == Err::<(), PoliteErrorView>(
            PoliteErrorView::Save { db_path, table_name: table, source: polite_message(written->Err_0) },
        ),
{
    let plan = write_plan(table, polars_columns(df), polars_height(df));
    if let Err(ce) = connected {
        let (p, m) = choose|p: &str, m: String|
            #![trigger call_ensures(open, (p,), Err::<C, String>(m))]
            {
                &&& p@ == db_path
                &&& call_ensures(open, (p,), Err::<C, String>(m))
                &&& ce == PoliteErrorView::Connect { db_path: p@, source: m@ }
            };
        match saved {
            Ok(_) => {
                let (c, c_end) = choose|c: C, c_end: C|
                    #![trigger opened_at(open, Some(db_path), c), plan_written(write, c, plan, table, c_end, Ok(()))]
                    opened_at(open, Some(db_path), c) && plan_written(write, c, plan, table, c_end, Ok(()));
                let q = choose|q: &str| q@ == db_path && call_ensures(open, (q,), Ok::<C, String>(c));
                assert(call_ensures(open, (q,), Ok::<C, String>(c)));
                assert(false);
            },
            Err(e) => {
                if exists|c: C, c_end: C, inner: PoliteErrorView|
                    #![trigger opened_at(open, Some(db_path), c), plan_written(write, c, plan, table, c_end, Err(inner))]
                    opened_at(open, Some(db_path), c) && plan_written(write, c, plan, table, c_end, Err(inner)) {
                    let (c, c_end, inner) = choose|c: C, c_end: C, inner: PoliteErrorView|
                        #![trigger opened_at(open, Some(db_path), c), plan_written(write, c, plan, table, c_end, Err(inner))]
                        opened_at(open, Some(db_path), c) && plan_written(write, c, plan, table, c_end, Err(inner));
                    let q = choose|q: &str| q@ == db_path && call_ensures(open, (q,), Ok::<C, String>(c));
                    assert(call_ensures(open, (q,), Ok::<C, String>(c)));
                    assert(false);
                } else {
                    let ce2 = choose|ce2: PoliteErrorView|
                        #![trigger sqlite_connected(open, Some(db_path), Err::<C, PoliteErrorView>(ce2))]
                        sqlite_connected(open, Some(db_path), Err::<C, PoliteErrorView>(ce2)) && e->Save_source == polite_message(ce2);
                    let (p2, m2) = choose|p2: &str, m2: String|
                        #![trigger call_ensures(open, (p2,), Err::<C, String>(m2))]
                        {
                            &&& p2@ == db_path
                            &&& call_ensures(open, (p2,), Err::<C, String>(m2))
                            &&& ce2 == PoliteErrorView::Connect { db_path: p2@, source: m2@ }
                        };
                    assert(call_ensures(open, (p2,), Err::<C, String>(m2)));
                    assert(m == m2);
                    assert(ce == ce2);
                    assert(e == PoliteErrorView::Save { db_path, table_name: table, source: polite_message(ce) });
                }
            },
        }
    } else {
        let c = connected->Ok_0;
        let p = choose|p: &str| p@ == db_path && call_ensures(open, (p,), Ok::<C, String>(c));
        assert(call_ensures(open, (p,), Ok::<C, String>(c)));
        match saved {
            Ok(_) => {
                let (c2, c_end) = choose|c2: C, c_end: C|
                    #![trigger opened_at(open, Some(db_path), c2), plan_written(write, c2, plan, table, c_end, Ok(()))]
                    opened_at(open, Some(db_path), c2) && plan_written(write, c2, plan, table, c_end, Ok(()));
                let q = choose|q: &str| q@ == db_path && call_ensures(open, (q,), Ok::<C, String>(c2));
                assert(call_ensures(open, (q,), Ok::<C, String>(c2)));
                assert(c2 == c);
                lemma_plan_written_functional(write, c, plan, table, written_end, written, c_end, Ok(()));
            },
            Err(e) => {
                if exists|c2: C, c_end: C, inner: PoliteErrorView|
                    #![trigger opened_at(open, Some(db_path), c2), plan_written(write, c2, plan, table, c_end, Err(inner))]
                    opened_at(open, Some(db_path), c2) && plan_written(write, c2, plan, table, c_end, Err(inner))
                        && e->Save_source == polite_message(inner) {
                    let (c2, c_end, inner) = choose|c2: C, c_end: C, inner: PoliteErrorView|
                        #![trigger opened_at(open, Some(db_path), c2), plan_written(write, c2, plan, table, c_end, Err(inner))]
                        opened_at(open, Some(db_path), c2) && plan_written(write, c2, plan, table, c_end, Err(inner))
                            && e->Save_source == polite_message(inner);
                    let q = choose|q: &str| q@ == db_path && call_ensures(open, (q,), Ok::<C, String>(c2));
                    assert(call_ensures(open, (q,), Ok::<C, String>(c2)));
                    assert(c2 == c);
                    lemma_plan_written_functional(write, c, plan, table, written_end, written, c_end, Err(inner));
                    assert(e == PoliteErrorView::Save { db_path, table_name: table, source: polite_message(inner) });
                } else {
                    let ce2 = choose|ce2: PoliteErrorView|
                        #![trigger sqlite_connected(open, Some(db_path), Err::<C, PoliteErrorView>(ce2))]
                        sqlite_connected(open, Some(db_path), Err::<C, PoliteErrorView>(ce2)) && e->Save_source == polite_message(ce2);
                    let (p2, m2) = choose|p2: &str, m2: String|
                        #![trigger call_ensures(open, (p2,), Err::<C, String>(m2))]
                        {
                            &&& p2@ == db_path
                            &&& call_ensures(open, (p2,), Err::<C, String>(m2))
                            &&& ce2 == PoliteErrorView::Connect { db_path: p2@, source: m2@ }
                        };
                    assert(call_ensures(open, (p2,), Err::<C, String>(m2)));
                    assert(false);
                }
            },
        }
    }
}

/// Opens the database at `db_path` with `open` and writes `df` into its table `table_name`, as
/// `from_dataframe` does, with `write`; any failure, in opening or in writing, is reported as a
/// `Save` error of the table carrying the text of the underlying error. The connection is
/// dropped at the end.
pub fn save_dataframe<C, FO, FW>(
    db_path: &str,
    table_name: &str,
    df: &DataFrame,
    open: &FO,
    write: &FW,
) -> (r: Result<(), PoliteError>)
    where
        FO: Fn(&str) -> Result<C, String>,
        FW: Fn(C, &WriteStatement) -> (C, Result<(), String>),
    requires
        forall|p: &str| call_requires(*open, (p,)),
        forall|c: C, st: &WriteStatement| call_requires(*write, (c, st)),
    ensures
        frame_saved(*open, *write, db_path@, table_name@, *df, unit_result_view(r)),
{
    let conn = match connect_sqlite(Some(db_path), open) {
        Ok(c) => c,
        Err(e) => {
            return Err(PoliteError::Save { db_path: owned(db_path), table_name: owned(table_name), source: e.message() });
        },
    };
    let (_conn, written) = from_dataframe(conn, table_name, df, write);
    match written {
        Ok(()) => Ok(()),
        Err(e) => Err(PoliteError::Save { db_path: owned(db_path), table_name: owned(table_name), source: e.message() }),
    }
}

} // verus!
