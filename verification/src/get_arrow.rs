//! Loading the results of queries into Arrow, by the kind of source.
use vstd::prelude::*;
use vstd::string::*;

use crate::error::{OutError, OutErrorView};
use crate::partition::sqlite_path;
use crate::source::{CXQuery, SourceConn, SourceType, query_views, source_type_name, spec_source_type_name};

verus! {

/// Whether `r` is what loading `queries` from `source_conn` gives: for an SQLite source, what
/// `dispatch` gave when it took `loader`, the database path (the URL after `sqlite://`), the
/// queries and `origin_query`; for any other source, `loader` untouched and the refusal of the
/// source.
pub open spec fn arrow_loaded<T, D, FD: Fn(T, &str, &Vec<CXQuery>, Option<String>) -> (T, Result<D, OutError>)>(
    dispatch: FD,
    loader: T,
    source_conn: SourceConn,
    origin_query: Option<String>,
    queries: Vec<CXQuery>,
    r: (T, Result<D, OutError>),
) -> bool {
    if source_conn.source_type() == SourceType::SQLite {
        exists|p: &str|
            #![trigger call_ensures(dispatch, (loader, p, &queries, origin_query), r)]
            p@ == sqlite_path(source_conn.url()) && call_ensures(dispatch, (loader, p, &queries, origin_query), r)
    } else {
        &&& r.0 == loader
        &&& r.1 matches Err(e) && e@ == OutErrorView::SourceNotSupport(spec_source_type_name(source_conn.source_type()))
    }
}

/// A load from an SQLite source hands the loader every query it was given, in order, with the
/// database path of the source: the queries handed over are as many as those given, and query
/// `i` handed over is query `i` given.
pub proof fn law_get_arrow_hands_every_query<T, D, FD: Fn(T, &str, &Vec<CXQuery>, Option<String>) -> (T, Result<D, OutError>)>(
    dispatch: FD,
    loader: T,
    source_conn: SourceConn,
    origin_query: Option<String>,
    queries: Vec<CXQuery>,
    r: (T, Result<D, OutError>),
)
    requires
        source_conn.source_type() == SourceType::SQLite,
        arrow_loaded(dispatch, loader, source_conn, origin_query, queries, r),
    ensures
        exists|p: &str, qs: Vec<CXQuery>|
            #![trigger call_ensures(dispatch, (loader, p, &qs, origin_query), r)]
            {
                &&& p@ == sqlite_path(source_conn.url())
                &&& qs@.len() == queries@.len()
                &&& forall|i: int| 0 <= i < qs@.len() ==> #[trigger] qs@[i]@ == queries@[i]@
                &&& call_ensures(dispatch, (loader, p, &qs, origin_query), r)
            },
{
    let p = choose|p: &str| p@ == sqlite_path(source_conn.url()) && call_ensures(dispatch, (loader, p, &queries, origin_query), r);
    assert(call_ensures(dispatch, (loader, p, &queries, origin_query), r));
}

/// Whether `dispatch` gives one outcome for one input: two calls with the same loader, a path
/// of the same text, queries of the same texts and the same origin query give the same outcome
/// (as a load does from a database that did not change between the two).
pub open spec fn dispatch_is_functional<T, D, FD: Fn(T, &str, &Vec<CXQuery>, Option<String>) -> (T, Result<D, OutError>)>(dispatch: FD) -> bool {
    forall|t: T, p1: &str, p2: &str, qs1: &Vec<CXQuery>, qs2: &Vec<CXQuery>, o: Option<String>, r1: (T, Result<D, OutError>), r2: (T, Result<D, OutError>)|
        #![trigger call_ensures(dispatch, (t, p1, qs1, o), r1), call_ensures(dispatch, (t, p2, qs2, o), r2)]
        p1@ == p2@ && query_views(qs1@) == query_views(qs2@) && call_ensures(dispatch, (t, p1, qs1, o), r1)
            && call_ensures(dispatch, (t, p2, qs2, o), r2) ==> r1 == r2
}

/// The view of a load's outcome: the loaded value, or the view of the error.
pub open spec fn outcome_view<D>(r: Result<D, OutError>) -> Result<D, OutErrorView> {
    match r {
        Ok(d) => Ok(d),
        Err(e) => Err(e@),
    }
}

/// Two loads of the same queries from the same source, with the same loader and origin query,
/// end the same way whatever pre-execution statements each was handed (`get_arrow` runs none),
/// when the load itself gives one outcome for one input: the same loader comes back, with the
/// same result.
pub proof fn law_get_arrow_ignores_pre_execution<T, D, FD: Fn(T, &str, &Vec<CXQuery>, Option<String>) -> (T, Result<D, OutError>)>(
    dispatch: FD,
    loader: T,
    source_conn: SourceConn,
    origin_query: Option<String>,
    queries: Vec<CXQuery>,
    r1: (T, Result<D, OutError>),
    r2: (T, Result<D, OutError>),
)
    requires
        dispatch_is_functional(dispatch),
        arrow_loaded(dispatch, loader, source_conn, origin_query, queries, r1),
        arrow_loaded(dispatch, loader, source_conn, origin_query, queries, r2),
    ensures
        r1.0 == r2.0,
        outcome_view(r1.1) == outcome_view(r2.1),
{
    if source_conn.source_type() == SourceType::SQLite {
        let p1 = choose|p: &str| p@ == sqlite_path(source_conn.url()) && call_ensures(dispatch, (loader, p, &queries, origin_query), r1);
        let p2 = choose|p: &str| p@ == sqlite_path(source_conn.url()) && call_ensures(dispatch, (loader, p, &queries, origin_query), r2);
        assert(call_ensures(dispatch, (loader, p1, &queries, origin_query), r1));
        assert(call_ensures(dispatch, (loader, p2, &queries, origin_query), r2));
    }
}

/// Runs `queries` on the source `source_conn` and collects the results in Arrow. An SQLite
/// source is handed to `dispatch` with the database path (the URL after `sqlite://`), the
/// queries and `origin_query`; any other source is not supported. `dispatch` takes the `loader`
/// and hands it back, so that a result carrying the very `loader` it was given shows that
/// nothing was loaded. `pre_execution_queries` plays no part (the SQLite source runs none).
pub fn get_arrow<T, D, FD>(
    loader: T,
    source_conn: &SourceConn,
    origin_query: Option<String>,
    queries: &Vec<CXQuery>,
    pre_execution_queries: Option<&[String]>,
    dispatch: &FD,
) -> (r: (T, Result<D, OutError>))
    where
        FD: Fn(T, &str, &Vec<CXQuery>, Option<String>) -> (T, Result<D, OutError>),
    requires
        source_conn.source_type() == SourceType::SQLite ==> source_conn.url().len() >= 9,
        forall|t: T, p: &str, qs: &Vec<CXQuery>, o: Option<String>| call_requires(*dispatch, (t, p, qs, o)),
    ensures
        arrow_loaded(*dispatch, loader, *source_conn, origin_query, *queries, r),
{
    match source_conn.ty() {
        SourceType::SQLite => {
            let url = source_conn.conn();
            let n = url.unicode_len();
            let path = url.substring_ascii(9, n);
            dispatch(loader, path, queries, origin_query)
        },
        ty => (loader, Err(OutError::SourceNotSupport(crate::text::owned(source_type_name(ty))))),
    }
}

/// Starts streaming the results of `queries` on the source `source_conn` in Arrow record
/// batches of `batch_size` rows. Only an SQLite source can be streamed: `start` is handed its
/// database path (the URL after `sqlite://`), the queries, `origin_query` and `batch_size`, and
/// gives the batch iterator.
pub fn new_record_batch_iter<B, FB>(
    source_conn: &SourceConn,
    origin_query: Option<String>,
    queries: &Vec<CXQuery>,
    batch_size: usize,
    pre_execution_queries: Option<&[String]>,
    start: &FB,
) -> (r: B)
    where
        FB: Fn(&str, &Vec<CXQuery>, Option<String>, usize) -> B,
    requires
        source_conn.source_type() == SourceType::SQLite,
        source_conn.url().len() >= 9,
        forall|p: &str, qs: &Vec<CXQuery>, o: Option<String>, n: usize| call_requires(*start, (p, qs, o, n)),
    ensures
        batches_started(*start, *source_conn, origin_query, *queries, batch_size, r),
{
    let url = source_conn.conn();
    let n = url.unicode_len();
    let path = url.substring_ascii(9, n);
    start(path, queries, origin_query, batch_size)
}

/// Whether `r` is the batch stream that `start` gave when it took the database path of
/// `source_conn` (the URL after `sqlite://`), the queries, `origin_query` and `batch_size`.
pub open spec fn batches_started<B, FB: Fn(&str, &Vec<CXQuery>, Option<String>, usize) -> B>(
    start: FB,
    source_conn: SourceConn,
    origin_query: Option<String>,
    queries: Vec<CXQuery>,
    batch_size: usize,
    r: B,
) -> bool {
    exists|p: &str|
        #![trigger call_ensures(start, (p, &queries, origin_query, batch_size), r)]
        p@ == sqlite_path(source_conn.url()) && call_ensures(start, (p, &queries, origin_query, batch_size), r)
}

/// Whether `start` gives one stream for one input: two calls with a path of the same text and
/// the same queries, origin query and batch size give the same stream.
pub open spec fn start_is_functional<B, FB: Fn(&str, &Vec<CXQuery>, Option<String>, usize) -> B>(start: FB) -> bool {
    forall|p1: &str, p2: &str, qs: &Vec<CXQuery>, o: Option<String>, n: usize, r1: B, r2: B|
        #![trigger call_ensures(start, (p1, qs, o, n), r1), call_ensures(start, (p2, qs, o, n), r2)]
        p1@ == p2@ && call_ensures(start, (p1, qs, o, n), r1) && call_ensures(start, (p2, qs, o, n), r2) ==> r1 == r2
}

/// Two streams of the same queries from the same source, with the same origin query and batch
/// size, are the same stream whatever pre-execution statements each was handed
/// (`new_record_batch_iter` runs none), when starting a stream gives one stream for one input.
pub proof fn law_batches_ignore_pre_execution<B, FB: Fn(&str, &Vec<CXQuery>, Option<String>, usize) -> B>(
    start: FB,
    source_conn: SourceConn,
    origin_query: Option<String>,
    queries: Vec<CXQuery>,
    batch_size: usize,
    r1: B,
    r2: B,
)
    requires
        start_is_functional(start),
        batches_started(start, source_conn, origin_query, queries, batch_size, r1),
        batches_started(start, source_conn, origin_query, queries, batch_size, r2),
    ensures
        r1 == r2,
{
    let p1 = choose|p: &str| p@ == sqlite_path(source_conn.url()) && call_ensures(start, (p, &queries, origin_query, batch_size), r1);
    let p2 = choose|p: &str| p@ == sqlite_path(source_conn.url()) && call_ensures(start, (p, &queries, origin_query, batch_size), r2);
    assert(call_ensures(start, (p1, &queries, origin_query, batch_size), r1));
    assert(call_ensures(start, (p2, &queries, origin_query, batch_size), r2));
}

} // verus!
