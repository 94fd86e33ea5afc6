//! Opening a database and running statements on it.
use vstd::prelude::*;

use crate::error::{PoliteError, PoliteErrorView};
use crate::text::owned;

verus! {

/// The database a connection opens: the given path, or an in-memory database when none is
/// given.
pub open spec fn db_path_or_memory(path: Option<Seq<char>>) -> Seq<char> {
    match path {
        Some(p) => p,
        None => ":memory:"@,
    }
}

pub open spec fn opt_view(path: Option<&str>) -> Option<Seq<char>> {
    match path {
        Some(p) => Some(p@),
        None => None,
    }
}

/// Whether `r` is what opening the database at `path` (in memory when `None`) with `open`
/// gives: the connection `open` gave, or the `Connect` error with `open`'s text.
pub open spec fn sqlite_connected<C, FO: Fn(&str) -> Result<C, String>>(open: FO, path: Option<Seq<char>>, r: Result<C, PoliteErrorView>) -> bool {
    match r {
        Ok(conn) => opened_at(open, path, conn),
        Err(e) => exists|p: &str, m: String|
            #![trigger call_ensures(open, (p,), Err::<C, String>(m))]
            {
                &&& p@ == db_path_or_memory(path)
                &&& call_ensures(open, (p,), Err::<C, String>(m))
                &&& e == PoliteErrorView::Connect { db_path: p@, source: m@ }
            },
    }
}

/// Whether `open` opened the database at `path` (in memory when `None`) as `conn`.
pub open spec fn opened_at<C, FO: Fn(&str) -> Result<C, String>>(open: FO, path: Option<Seq<char>>, conn: C) -> bool {
    exists|p: &str|
        #![trigger call_ensures(open, (p,), Ok::<C, String>(conn))]
        p@ == db_path_or_memory(path) && call_ensures(open, (p,), Ok::<C, String>(conn))
}

/// The view of a connection result.
pub open spec fn connection_view<C>(r: Result<C, PoliteError>) -> Result<C, PoliteErrorView> {
    match r {
        Ok(c) => Ok(c),
        Err(e) => Err(e@),
    }
}

/// Opens the database at `path` (in memory when `None`) with `open`.
pub fn connect_sqlite<C, FO>(path: Option<&str>, open: &FO) -> (r: Result<C, PoliteError>)
    where
        FO: Fn(&str) -> Result<C, String>,
    requires
        forall|p: &str| call_requires(*open, (p,)),
    ensures
        sqlite_connected(*open, opt_view(path), connection_view(r)),
{
    let db_path = match path {
        Some(p) => p,
        None => ":memory:",
    };
    let opened = open(db_path);
    assert(call_ensures(*open, (db_path,), opened));
    assert(db_path@ == db_path_or_memory(opt_view(path)));
    match opened {
        Ok(c) => {
            let r = Ok(c);
            assert(call_ensures(*open, (db_path,), Ok::<C, String>(c)));
            assert(opened_at(*open, opt_view(path), c));
            r
        },
        Err(m) => Err(PoliteError::Connect { db_path: owned(db_path), source: m }),
    }
}

/// Runs the statement `sql` once on the connection `conn` with `execute`, which gives back the
/// connection and the number of rows the statement changed; a failure is an `Exec` error of
/// `sql`. The connection is given back with the result.
pub fn execute_query<C, FE>(conn: C, sql: &str, execute: &FE) -> (r: (C, Result<usize, PoliteError>))
    where
        FE: Fn(C, &str) -> (C, Result<usize, String>),
    requires
        call_requires(*execute, (conn, sql)),
    ensures
        exists|out: Result<usize, String>|
            #![trigger call_ensures(*execute, (conn, sql), (r.0, out))]
            call_ensures(*execute, (conn, sql), (r.0, out)) && match out {
                Ok(n) => r.1 matches Ok(k) && k == n,
                Err(m) => r.1 matches Err(e) && e@ == PoliteErrorView::Exec { sql: sql@, source: m@ },
            },
{
    let ghost c0 = conn;
    let ran = execute(conn, sql);
    let ghost ran_g = ran;
    assert(call_ensures(*execute, (c0, sql), ran_g));
    let (c, out) = ran;
    match out {
        Ok(n) => {
            let r = (c, Ok(n));
            assert(call_ensures(*execute, (c0, sql), (r.0, ran_g.1)));
            r
        },
        Err(m) => {
            let r = (c, Err(PoliteError::Exec { sql: owned(sql), source: m }));
            assert(call_ensures(*execute, (c0, sql), (r.0, ran_g.1)));
            r
        },
    }
}

} // verus!
