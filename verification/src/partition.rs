//! Splitting a query into range queries over an integer column.
use vstd::prelude::*;

use crate::error::{OutError, OutErrorView};
use crate::source::{CXQuery, CXQueryView, SourceConn, SourceType, query_views};
use crate::text::owned;
use vstd::string::*;

verus! {

/// A request to split `query` into `num` range queries over the integer column `column`,
/// between `min` and `max` when both are given, else between the column's own extremes.
#[derive(Debug)]
pub struct PartitionQuery {
    query: String,
    column: String,
    min: Option<i64>,
    max: Option<i64>,
    num: usize,
}

impl PartitionQuery {
    pub closed spec fn query_text(&self) -> Seq<char> {
        self.query@
    }

    pub closed spec fn column_name(&self) -> Seq<char> {
        self.column@
    }

    pub closed spec fn min_bound(&self) -> Option<i64> {
        self.min
    }

    pub closed spec fn max_bound(&self) -> Option<i64> {
        self.max
    }

    pub closed spec fn count(&self) -> usize {
        self.num
    }

    pub fn new(query: &str, column: &str, min: Option<i64>, max: Option<i64>, num: usize) -> (res:
        Self)
        ensures
            res.query_text() == query@,
            res.column_name() == column@,
            res.min_bound() == min,
            res.max_bound() == max,
            res.count() == num,
    {
        PartitionQuery { query: owned(query), column: owned(column), min, max, num }
    }
}

pub open spec fn fits_i64(x: int) -> bool {
    i64::MIN <= x <= i64::MAX
}

/// Division rounding toward zero, as Rust's `/` on integers does (for a positive divisor).
pub open spec fn trunc_div(a: int, b: int) -> int {
    if a >= 0 {
        a / b
    } else {
        -((-a) / b)
    }
}

/// The arithmetic of splitting `[min, max]` into `num` parts stays within `i64`, and there is at
/// least one part to divide by.
pub open spec fn partition_fits(min: i64, max: i64, num: usize) -> bool {
    &&& num >= 1
    &&& fits_i64(max - min)
    &&& fits_i64(max - min + 1)
    &&& num <= i64::MAX ==> max < i64::MAX
}

/// The length of each part but the last: the width of `[min, max]` divided by `num`, rounded
/// toward zero.
pub open spec fn part_size(min: i64, max: i64, num: usize) -> int {
    trunc_div(max - min + 1, num as int)
}

/// Lower bound (inclusive) of part `i`.
pub open spec fn part_lower(min: i64, max: i64, num: usize, i: int) -> int {
    min + i * part_size(min, max, num)
}

/// Upper bound (exclusive) of part `i`: the next part's lower bound, and `max + 1` for the last.
pub open spec fn part_upper(min: i64, max: i64, num: usize, i: int) -> int {
    if i == num - 1 {
        max + 1
    } else {
        min + (i + 1) * part_size(min, max, num)
    }
}

/// The `[lower, upper)` bounds of the parts `[min, max]` is split into. A count beyond `i64::MAX`
/// is negative as an `i64`, and gives no parts.
pub open spec fn partition_bounds(min: i64, max: i64, num: usize) -> Seq<(i64, i64)> {
    if num > i64::MAX {
        Seq::empty()
    } else {
        Seq::new(
            num as nat,
            |i: int| (part_lower(min, max, num, i) as i64, part_upper(min, max, num, i) as i64),
        )
    }
}

/// For `0 <= i <= num`, `min + i * size` lies between `min` and `max + 1` (in whichever order
/// the two come), so it fits in `i64`.
proof fn lemma_part_offset(min: i64, max: i64, num: usize, i: int)
    requires
        partition_fits(min, max, num),
        num <= i64::MAX,
        0 <= i <= num,
    ensures
        fits_i64(i * part_size(min, max, num)),
        max - min + 1 >= 0 ==> 0 <= i * part_size(min, max, num) <= max - min + 1,
        max - min + 1 < 0 ==> max - min + 1 <= i * part_size(min, max, num) <= 0,
        fits_i64(min + i * part_size(min, max, num)),
        i < num ==> i * part_size(min, max, num) <= (i + 1) * part_size(min, max, num) || max - min
            + 1 < 0,
{
    let w: int = max - min + 1;
    let n: int = num as int;
    let s = part_size(min, max, num);
    if w >= 0 {
        assert(s == w / n);
        assert(0 <= s) by (nonlinear_arith)
            requires
                s == w / n,
                w >= 0,
                n >= 1,
        ;
        assert(n * s <= w) by (nonlinear_arith)
            requires
                s == w / n,
                w >= 0,
                n >= 1,
        ;
        assert(0 <= i * s <= n * s) by (nonlinear_arith)
            requires
                0 <= i <= n,
                s >= 0,
        ;
        assert(i * s <= (i + 1) * s) by (nonlinear_arith)
            requires
                s >= 0,
        ;
    } else {
        let t = (-w) / n;
        assert(s == -t);
        assert(0 <= t) by (nonlinear_arith)
            requires
                t == (-w) / n,
                -w > 0,
                n >= 1,
        ;
        assert(n * t <= -w) by (nonlinear_arith)
            requires
                t == (-w) / n,
                -w > 0,
                n >= 1,
        ;
        assert(0 <= i * t <= n * t) by (nonlinear_arith)
            requires
                0 <= i <= n,
                t >= 0,
        ;
        assert(i * s == -(i * t)) by (nonlinear_arith)
            requires
                s == -t,
        ;
    }
}

/// The bounds of the parts `[min, max]` is split into, computed as `partition` does.
pub fn partition_ranges(min: i64, max: i64, num: usize) -> (r: Vec<(i64, i64)>)
    requires
        partition_fits(min, max, num),
    ensures
        r@ == partition_bounds(min, max, num),
{
    let width = max - min + 1;
    if num as u64 > i64::MAX as u64 {
        return Vec::new();
    }
    let n = num as i64;
    let size = width / n;
    assert(size == part_size(min, max, num));
    let mut out: Vec<(i64, i64)> = Vec::new();
    let mut i: i64 = 0;
    while i < n
        invariant
            partition_fits(min, max, num),
            num <= i64::MAX,
            n == num,
            size == part_size(min, max, num),
            0 <= i <= n,
            out@.len() == i,
            forall|j: int|
                0 <= j < i ==> #[trigger] out@[j] == partition_bounds(min, max, num)[j],
        decreases n - i,
    {
        proof {
            lemma_part_offset(min, max, num, i as int);
            lemma_part_offset(min, max, num, i + 1);
        }
        let lower = min + i * size;
        let upper = if i == n - 1 {
            max + 1
        } else {
            min + (i + 1) * size
        };
        out.push((lower, upper));
        i = i + 1;
    }
    assert(out@ =~= partition_bounds(min, max, num));
    out
}

/// Part `i` of the split, with its bounds as integers.
proof fn lemma_bound_values(min: i64, max: i64, num: usize, i: int)
    requires
        partition_fits(min, max, num),
        num <= i64::MAX,
        0 <= i < num,
    ensures
        partition_bounds(min, max, num)[i].0 == part_lower(min, max, num, i),
        partition_bounds(min, max, num)[i].1 == part_upper(min, max, num, i),
        max - min + 1 >= 0 ==> part_lower(min, max, num, i) <= part_upper(min, max, num, i),
{
    lemma_part_offset(min, max, num, i);
    lemma_part_offset(min, max, num, i + 1);
}

/// The parts of `[min, max]` are laid end to end: there are `num` of them, the first begins at
/// `min`, each ends where the next begins, and the last ends at `max + 1`.
pub proof fn lemma_partition_contiguous(min: i64, max: i64, num: usize)
    requires
        partition_fits(min, max, num),
        num <= i64::MAX,
    ensures
        partition_bounds(min, max, num).len() == num,
        partition_bounds(min, max, num)[0].0 == min,
        partition_bounds(min, max, num)[num - 1].1 == max + 1,
        forall|i: int|
            0 <= i < num - 1 ==> #[trigger] partition_bounds(min, max, num)[i].1
                == partition_bounds(min, max, num)[i + 1].0,
{
    lemma_bound_values(min, max, num, 0);
    lemma_bound_values(min, max, num, num - 1);
    assert forall|i: int|
        0 <= i < num - 1 implies #[trigger] partition_bounds(min, max, num)[i].1
            == partition_bounds(min, max, num)[i + 1].0 by {
        lemma_bound_values(min, max, num, i);
        lemma_bound_values(min, max, num, i + 1);
    }
}

/// Whether `v` lies in the part `b`, which holds `b.0 <= v < b.1`.
pub open spec fn in_part(b: (i64, i64), v: int) -> bool {
    b.0 <= v < b.1
}

/// Finds the part that holds `v`, scanning down from part `i`, where `v` lies below the end of
/// part `i`.
proof fn lemma_find_part(min: i64, max: i64, num: usize, v: int, i: int) -> (k: int)
    requires
        partition_fits(min, max, num),
        num <= i64::MAX,
        min <= v <= max,
        0 <= i < num,
        v < partition_bounds(min, max, num)[i].1,
    ensures
        0 <= k <= i,
        in_part(partition_bounds(min, max, num)[k], v),
    decreases i,
{
    lemma_partition_contiguous(min, max, num);
    if partition_bounds(min, max, num)[i].0 <= v {
        i
    } else {
        lemma_find_part(min, max, num, v, i - 1)
    }
}

/// Splitting `[min, max]` puts every value of it in exactly one part.
pub proof fn lemma_partition_covers(min: i64, max: i64, num: usize, v: int)
    requires
        partition_fits(min, max, num),
        num <= i64::MAX,
        min <= v <= max,
    ensures
        exists|i: int|
            0 <= i < num && #[trigger] in_part(partition_bounds(min, max, num)[i], v),
        forall|i: int, j: int|
            0 <= i < num && 0 <= j < num && in_part(#[trigger] partition_bounds(min, max, num)[i], v)
                && in_part(#[trigger] partition_bounds(min, max, num)[j], v) ==> i == j,
{
    let b = partition_bounds(min, max, num);
    lemma_partition_contiguous(min, max, num);
    let k = lemma_find_part(min, max, num, v, num - 1);
    assert(in_part(b[k], v));
    assert forall|i: int, j: int|
        0 <= i < num && 0 <= j < num && in_part(#[trigger] b[i], v) && in_part(#[trigger] b[j], v)
            implies i == j by {
        if i < j {
            lemma_lower_monotone(min, max, num, i + 1, j);
            lemma_partition_contiguous(min, max, num);
        } else if j < i {
            lemma_lower_monotone(min, max, num, j + 1, i);
            lemma_partition_contiguous(min, max, num);
        }
    }
}

/// Lower bounds do not decrease from part to part when `min <= max`.
proof fn lemma_lower_monotone(min: i64, max: i64, num: usize, i: int, j: int)
    requires
        partition_fits(min, max, num),
        num <= i64::MAX,
        min <= max,
        0 <= i <= j < num,
    ensures
        partition_bounds(min, max, num)[i].0 <= partition_bounds(min, max, num)[j].0,
    decreases j - i,
{
    if i < j {
        lemma_lower_monotone(min, max, num, i, j - 1);
        lemma_bound_values(min, max, num, j - 1);
        lemma_partition_contiguous(min, max, num);
    }
}

/// What connectorx's `single_col_partition_query` gives, with the SQLite dialect, for the query
/// `sql` restricted to `lower <= col < upper`: the rewritten query text, or its error's text.
pub uninterp spec fn sqlite_partition_query_text(sql: Seq<char>, col: Seq<char>, lower: i64, upper: i64) -> Result<Seq<char>, Seq<char>>;

/// Calls connectorx's `sql::single_col_partition_query` with sqlparser's `SQLiteDialect`; the
/// result is named `sqlite_partition_query_text`, the error handed back as its `Display` text.
#[verifier::external_body]
fn sqlite_partition_query(sql: &str, col: &str, lower: i64, upper: i64) -> (r: Result<String, String>)
    ensures
        match r {
            Ok(q) => sqlite_partition_query_text(sql@, col@, lower, upper) == Ok::<Seq<char>, Seq<char>>(q@),
            Err(m) => sqlite_partition_query_text(sql@, col@, lower, upper) == Err::<Seq<char>, Seq<char>>(m@),
        },
{
    let dialect = sqlparser::dialect::SQLiteDialect {};
    match connectorx::sql::single_col_partition_query(sql, col, lower, upper, &dialect) {
        Ok(q) => Ok(q),
        Err(e) => Err(e.to_string()),
    }
}

/// What connectorx's `get_partition_range_query_sep` gives, with the SQLite dialect, for the
/// query `sql` and column `col`: the texts of the queries for the column's minimum and maximum,
/// or its error's text.
pub uninterp spec fn sqlite_range_queries_text(sql: Seq<char>, col: Seq<char>) -> Result<(Seq<char>, Seq<char>), Seq<char>>;

/// Calls connectorx's `sql::get_partition_range_query_sep` with sqlparser's `SQLiteDialect`; the
/// result is named `sqlite_range_queries_text`, the error handed back as its `Display` text.
#[verifier::external_body]
fn sqlite_range_queries(sql: &str, col: &str) -> (r: Result<(String, String), String>)
    ensures
        match r {
            Ok((a, b)) => sqlite_range_queries_text(sql@, col@) == Ok::<(Seq<char>, Seq<char>), Seq<char>>((a@, b@)),
            Err(m) => sqlite_range_queries_text(sql@, col@) == Err::<(Seq<char>, Seq<char>), Seq<char>>(m@),
        },
{
    let dialect = sqlparser::dialect::SQLiteDialect {};
    match connectorx::sql::get_partition_range_query_sep(sql, col, &dialect) {
        Ok(pair) => Ok(pair),
        Err(e) => Err(e.to_string()),
    }
}

/// The query for the part `lower <= col < upper` of `query`, or the error it gives.
pub open spec fn part_query(query: Seq<char>, col: Seq<char>, lower: i64, upper: i64) -> Result<CXQueryView, OutErrorView> {
    match sqlite_partition_query_text(query, col, lower, upper) {
        Ok(t) => Ok(CXQueryView::Wrapped(t)),
        Err(m) => Err(OutErrorView::ConnectorXInternalError(m)),
    }
}

/// The view of a query result.
pub open spec fn query_result_view(r: Result<CXQuery, OutError>) -> Result<CXQueryView, OutErrorView> {
    match r {
        Ok(q) => Ok(q@),
        Err(e) => Err(e@),
    }
}

/// The query that reads only the rows of `query` with `lower <= col < upper`.
pub fn get_part_query(source_conn: &SourceConn, query: &str, col: &str, lower: i64, upper: i64) -> (r: Result<CXQuery, OutError>)
    requires
        source_conn.source_type() == SourceType::SQLite,
    ensures
        query_result_view(r) == part_query(query@, col@, lower, upper),
{
    match sqlite_partition_query(query, col, lower, upper) {
        Ok(q) => Ok(CXQuery::Wrapped(q)),
        Err(m) => Err(OutError::ConnectorXInternalError(m)),
    }
}

/// The queries for the parts with the given bounds, in order; or the error of the first part
/// whose query cannot be built.
pub open spec fn partition_queries(query: Seq<char>, col: Seq<char>, bounds: Seq<(i64, i64)>) -> Result<Seq<CXQueryView>, OutErrorView>
    decreases bounds.len(),
{
    if bounds.len() == 0 {
        Ok(Seq::empty())
    } else {
        match partition_queries(query, col, bounds.drop_last()) {
            Err(e) => Err(e),
            Ok(qs) => match part_query(query, col, bounds.last().0, bounds.last().1) {
                Ok(q) => Ok(qs.push(q)),
                Err(e) => Err(e),
            },
        }
    }
}

/// The single value a range query gave, as SQLite typed it.
#[derive(Debug)]
pub enum RangeCell {
    Integer(i64),
    /// A REAL value, converted to `i64` as Rust's `as` does (toward zero, saturating).
    Real(i64),
    Null,
    Text,
    Blob,
}

/// The bound a range cell stands for: its integer, 0 for NULL, nothing for text or a blob.
pub open spec fn cell_bound(c: RangeCell) -> Option<i64> {
    match c {
        RangeCell::Integer(v) => Some(v),
        RangeCell::Real(v) => Some(v),
        RangeCell::Null => Some(0i64),
        RangeCell::Text => None,
        RangeCell::Blob => None,
    }
}

pub open spec fn non_integer_column_text() -> Seq<char> {
    "Partition can only be done on integer columns"@
}

/// The bound a range cell stands for; a text or blob cell is refused.
pub fn range_value(cell: &RangeCell) -> (r: Result<i64, OutError>)
    ensures
        match r {
            Ok(v) => cell_bound(*cell) == Some(v),
            Err(e) => cell_bound(*cell) is None && e@ == OutErrorView::Other(non_integer_column_text()),
        },
{
    match cell {
        RangeCell::Integer(v) => Ok(*v),
        RangeCell::Real(v) => Ok(*v),
        RangeCell::Null => Ok(0),
        _ => Err(OutError::Other(owned("Partition can only be done on integer columns"))),
    }
}

/// The database path in a `sqlite://` URL: what follows its first nine characters.
pub open spec fn sqlite_path(url: Seq<char>) -> Seq<char> {
    url.subrange(9, url.len() as int)
}

/// `open` took `access`, opened the database at `path` as `c` and gave back `access_end`.
pub open spec fn range_db_opened<T, C, FO: Fn(T, &str) -> (T, Result<C, String>)>(open: FO, access: T, path: Seq<char>, access_end: T, c: C) -> bool {
    exists|p: &str|
        #![trigger call_ensures(open, (access, p), (access_end, Ok::<C, String>(c)))]
        p@ == path && call_ensures(open, (access, p), (access_end, Ok::<C, String>(c)))
}

/// `fetch` took the token `t0`, ran the query `q` on `c`, gave the cell `cell` and handed
/// back the token `t1`.
pub open spec fn range_fetched<T, C, FQ: Fn(T, &C, &str) -> (T, Result<RangeCell, String>)>(fetch: FQ, t0: T, c: C, q: Seq<char>, t1: T, cell: RangeCell) -> bool {
    exists|qq: &str|
        #![trigger call_ensures(fetch, (t0, &c, qq), (t1, Ok::<RangeCell, String>(cell)))]
        qq@ == q && call_ensures(fetch, (t0, &c, qq), (t1, Ok::<RangeCell, String>(cell)))
}

/// `fetch` took the token `t0`, ran the query `q` on `c`, failed with the text `m` and handed
/// back the token `t1`.
pub open spec fn range_fetch_failed<T, C, FQ: Fn(T, &C, &str) -> (T, Result<RangeCell, String>)>(fetch: FQ, t0: T, c: C, q: Seq<char>, t1: T, m: Seq<char>) -> bool {
    exists|qq: &str, ms: String|
        #![trigger call_ensures(fetch, (t0, &c, qq), (t1, Err::<RangeCell, String>(ms)))]
        qq@ == q && ms@ == m && call_ensures(fetch, (t0, &c, qq), (t1, Err::<RangeCell, String>(ms)))
}

/// Whether `r` is what the range queries `qmin` and `qmax` give on the open connection `c`,
/// run in order through `fetch`, which takes the token `t0` and whose last call hands back
/// `t_end`: the minimum's query fails (its text as an `SQLiteError`) or gives a cell; a text
/// or blob cell is refused (`Other`) and the maximum's query is not run (the token stays as
/// that first call gave it back); else the maximum's query runs the same way, and the two
/// bounds are the result.
pub open spec fn range_steps<T, C, FQ: Fn(T, &C, &str) -> (T, Result<RangeCell, String>)>(
    fetch: FQ,
    t0: T,
    c: C,
    qmin: Seq<char>,
    qmax: Seq<char>,
    t_end: T,
    r: Result<(i64, i64), OutErrorView>,
) -> bool {
    ||| r matches Err(OutErrorView::SQLiteError(m)) && range_fetch_failed(fetch, t0, c, qmin, t_end, m)
    ||| exists|ca: RangeCell, t1: T|
        #![trigger range_fetched(fetch, t0, c, qmin, t1, ca)]
        range_fetched(fetch, t0, c, qmin, t1, ca) && match cell_bound(ca) {
            None => t_end == t1 && r == Err::<(i64, i64), OutErrorView>(OutErrorView::Other(non_integer_column_text())),
            Some(lo) => {
                ||| r matches Err(OutErrorView::SQLiteError(m)) && range_fetch_failed(fetch, t1, c, qmax, t_end, m)
                ||| exists|cb: RangeCell|
                    #![trigger range_fetched(fetch, t1, c, qmax, t_end, cb)]
                    range_fetched(fetch, t1, c, qmax, t_end, cb) && match cell_bound(cb) {
                        None => r == Err::<(i64, i64), OutErrorView>(OutErrorView::Other(non_integer_column_text())),
                        Some(hi) => r == Ok::<(i64, i64), OutErrorView>((lo, hi)),
                    }
            },
        }
}

/// Whether `r` is what looking up the range of `col` in `query` gives, when the database at
/// `path` is opened with `open` (which takes `access`) and each range query runs through
/// `fetch` (which takes the token that the call before it handed back); `access_end` is the
/// token that the last call hands back. The steps run in order and the first that fails gives
/// the error: opening the database (its text as an `SQLiteError`), building the two range
/// queries (the rewriting error's text as a `ConnectorXInternalError`, with no query run),
/// then the range queries themselves (`range_steps`).
pub open spec fn col_range_result<T, C, FO: Fn(T, &str) -> (T, Result<C, String>), FQ: Fn(T, &C, &str) -> (T, Result<RangeCell, String>)>(
    open: FO,
    fetch: FQ,
    access: T,
    path: Seq<char>,
    query: Seq<char>,
    col: Seq<char>,
    access_end: T,
    r: Result<(i64, i64), OutErrorView>,
) -> bool {
    ||| exists|p: &str, ms: String|
        #![trigger call_ensures(open, (access, p), (access_end, Err::<C, String>(ms)))]
        {
            &&& p@ == path
            &&& call_ensures(open, (access, p), (access_end, Err::<C, String>(ms)))
            &&& r == Err::<(i64, i64), OutErrorView>(OutErrorView::SQLiteError(ms@))
        }
    ||| exists|c: C, a1: T|
        #![trigger range_db_opened(open, access, path, a1, c)]
        range_db_opened(open, access, path, a1, c) && match sqlite_range_queries_text(query, col) {
            Err(m) => access_end == a1 && r == Err::<(i64, i64), OutErrorView>(OutErrorView::ConnectorXInternalError(m)),
            Ok((qmin, qmax)) => range_steps(fetch, a1, c, qmin, qmax, access_end, r),
        }
}

/// Whether `open` gives one outcome for one input: two calls with the same token and a path of
/// the same text give back the same token and the same outcome (as opening a database that did
/// not change between the two does).
pub open spec fn open_is_functional<T, C, FO: Fn(T, &str) -> (T, Result<C, String>)>(open: FO) -> bool {
    forall|t: T, p1: &str, p2: &str, r1: (T, Result<C, String>), r2: (T, Result<C, String>)|
        #![trigger call_ensures(open, (t, p1), r1), call_ensures(open, (t, p2), r2)]
        p1@ == p2@ && call_ensures(open, (t, p1), r1) && call_ensures(open, (t, p2), r2) ==> r1 == r2
}

/// Whether `fetch` gives one outcome for one input: two calls with the same token, on the same
/// connection, with a query of the same text give back the same token and the same outcome.
pub open spec fn fetch_is_functional<T, C, FQ: Fn(T, &C, &str) -> (T, Result<RangeCell, String>)>(fetch: FQ) -> bool {
    forall|t: T, c: &C, q1: &str, q2: &str, r1: (T, Result<RangeCell, String>), r2: (T, Result<RangeCell, String>)|
        #![trigger call_ensures(fetch, (t, c, q1), r1), call_ensures(fetch, (t, c, q2), r2)]
        q1@ == q2@ && call_ensures(fetch, (t, c, q1), r1) && call_ensures(fetch, (t, c, q2), r2) ==> r1 == r2
}

/// With an `open` and a `fetch` that each give one outcome for one input, looking up a range
/// gives one outcome.
pub proof fn lemma_col_range_functional<T, C, FO: Fn(T, &str) -> (T, Result<C, String>), FQ: Fn(T, &C, &str) -> (T, Result<RangeCell, String>)>(
    open: FO,
    fetch: FQ,
    access: T,
    path: Seq<char>,
    query: Seq<char>,
    col: Seq<char>,
    e1: T,
    r1: Result<(i64, i64), OutErrorView>,
    e2: T,
    r2: Result<(i64, i64), OutErrorView>,
)
    requires
        open_is_functional(open),
        fetch_is_functional(fetch),
        col_range_result(open, fetch, access, path, query, col, e1, r1),
        col_range_result(open, fetch, access, path, query, col, e2, r2),
    ensures
        e1 == e2,
        r1 == r2,
{
}

/// The view of a range result.
pub open spec fn range_result_view(r: Result<(i64, i64), OutError>) -> Result<(i64, i64), OutErrorView> {
    match r {
        Ok(p) => Ok(p),
        Err(e) => Err(e@),
    }
}

/// Looks up the least and greatest value of `col` in `query` on an SQLite source: opens the
/// database with `open` (which takes `access`), builds the two range queries, and runs each
/// through `fetch`, handing each call the token that the call before it gave back.
pub fn sqlite_get_partition_range<T, C, FO, FQ>(access: T, source_conn: &SourceConn, query: &str, col: &str, open: &FO, fetch: &FQ) -> (r: (T, Result<(i64, i64), OutError>))
    where
        FO: Fn(T, &str) -> (T, Result<C, String>),
        FQ: Fn(T, &C, &str) -> (T, Result<RangeCell, String>),
    requires
        source_conn.url().len() >= 9,
        forall|t: T, p: &str| call_requires(*open, (t, p)),
        forall|t: T, c: &C, q: &str| call_requires(*fetch, (t, c, q)),
    ensures
        col_range_result(*open, *fetch, access, sqlite_path(source_conn.url()), query@, col@, r.0, range_result_view(r.1)),
{
    let url = source_conn.conn();
    let n = url.unicode_len();
    let path = url.substring_ascii(9, n);
    let ghost dbp = sqlite_path(source_conn.url());
    let ghost access0 = access;
    let opened = open(access, path);
    let ghost opened_g = opened;
    assert(call_ensures(*open, (access0, path), opened_g));
    let (access_end, outcome) = opened;
    let conn = match outcome {
        Ok(c) => c,
        Err(m) => {
            let out = (access_end, Err(OutError::SQLiteError(m)));
            assert(call_ensures(*open, (access0, path), (access_end, Err::<C, String>(m))));
            return out;
        },
    };
    let ghost a1 = access_end;
    assert(call_ensures(*open, (access0, path), (a1, Ok::<C, String>(conn))));
    assert(range_db_opened(*open, access0, dbp, a1, conn));
    let (min_query, max_query) = match sqlite_range_queries(query, col) {
        Ok(pair) => pair,
        Err(m) => {
            return (access_end, Err(OutError::ConnectorXInternalError(m)));
        },
    };
    let qa = min_query.as_str();
    let qb = max_query.as_str();
    let (t1, min_fetched) = fetch(access_end, &conn, qa);
    let min_cell = match min_fetched {
        Ok(cell) => cell,
        Err(m) => {
            assert(call_ensures(*fetch, (a1, &conn, qa), (t1, Err::<RangeCell, String>(m))));
            assert(range_fetch_failed(*fetch, a1, conn, qa@, t1, m@));
            assert(range_steps(*fetch, a1, conn, qa@, qb@, t1, Err(OutErrorView::SQLiteError(m@))));
            return (t1, Err(OutError::SQLiteError(m)));
        },
    };
    let ghost g1 = t1;
    assert(call_ensures(*fetch, (a1, &conn, qa), (g1, Ok::<RangeCell, String>(min_cell))));
    assert(range_fetched(*fetch, a1, conn, qa@, g1, min_cell));
    let lo = match range_value(&min_cell) {
        Ok(v) => v,
        Err(e) => {
            assert(range_steps(*fetch, a1, conn, qa@, qb@, g1, Err(e@)));
            return (t1, Err(e));
        },
    };
    let (t2, max_fetched) = fetch(t1, &conn, qb);
    let max_cell = match max_fetched {
        Ok(cell) => cell,
        Err(m) => {
            assert(call_ensures(*fetch, (g1, &conn, qb), (t2, Err::<RangeCell, String>(m))));
            assert(range_fetch_failed(*fetch, g1, conn, qb@, t2, m@));
            assert(range_steps(*fetch, a1, conn, qa@, qb@, t2, Err(OutErrorView::SQLiteError(m@))));
            return (t2, Err(OutError::SQLiteError(m)));
        },
    };
    let ghost g2 = t2;
    assert(call_ensures(*fetch, (g1, &conn, qb), (g2, Ok::<RangeCell, String>(max_cell))));
    assert(range_fetched(*fetch, g1, conn, qb@, g2, max_cell));
    let hi = match range_value(&max_cell) {
        Ok(v) => v,
        Err(e) => {
            assert(range_steps(*fetch, a1, conn, qa@, qb@, g2, Err(e@)));
            return (t2, Err(e));
        },
    };
    assert(range_steps(*fetch, a1, conn, qa@, qb@, g2, Ok((lo, hi))));
    (t2, Ok((lo, hi)))
}

/// Looks up the least and greatest value of `col` in `query` on the source `source_conn`
/// (SQLite: any other source has no lookup).
pub fn get_col_range<T, C, FO, FQ>(access: T, source_conn: &SourceConn, query: &str, col: &str, open: &FO, fetch: &FQ) -> (r: (T, Result<(i64, i64), OutError>))
    where
        FO: Fn(T, &str) -> (T, Result<C, String>),
        FQ: Fn(T, &C, &str) -> (T, Result<RangeCell, String>),
    requires
        source_conn.source_type() == SourceType::SQLite,
        source_conn.url().len() >= 9,
        forall|t: T, p: &str| call_requires(*open, (t, p)),
        forall|t: T, c: &C, q: &str| call_requires(*fetch, (t, c, q)),
    ensures
        col_range_result(*open, *fetch, access, sqlite_path(source_conn.url()), query@, col@, r.0, range_result_view(r.1)),
{
    sqlite_get_partition_range(access, source_conn, query, col, open, fetch)
}

/// A range is refused for splitting only when its arithmetic leaves `i64` or there are no
/// parts: a range `[min, max]` with `max - min + 1` and `max + 1` within `i64` splits into any
/// count `num >= 1` of parts (up to `i64::MAX`), however few values it holds, and its split is
/// the part queries of those `num` bounds.
pub proof fn law_split_refused_only_outside_i64(query: Seq<char>, col: Seq<char>, min: i64, max: i64, num: usize)
    requires
        1 <= num <= i64::MAX,
        min <= max,
        max - min + 1 <= i64::MAX,
        max + 1 <= i64::MAX,
    ensures
        partition_fits(min, max, num),
        partition_bounds(min, max, num).len() == num,
        split_result(query, col, min, max, num) == partition_queries(query, col, partition_bounds(min, max, num)),
{
}

/// Whether the arithmetic of splitting `[min, max]` into `num` parts stays within `i64`.
pub fn split_fits(min: i64, max: i64, num: usize) -> (r: bool)
    ensures
        r == partition_fits(min, max, num),
{
    if num == 0 {
        return false;
    }
    let diff = match max.checked_sub(min) {
        Some(d) => d,
        None => {
            return false;
        },
    };
    if diff == i64::MAX {
        return false;
    }
    num as u64 > i64::MAX as u64 || max < i64::MAX
}

pub open spec fn partially_specified_text() -> Seq<char> {
    "partition_query range can not be partially specified"@
}

pub open spec fn range_too_wide_text() -> Seq<char> {
    "partition_query range can not be split into partitions within i64"@
}

/// The result of splitting a found or given range `[lo, hi]`: the part queries, or the refusal
/// of a range whose split leaves `i64` (or of a count of zero).
pub open spec fn split_result(query: Seq<char>, col: Seq<char>, lo: i64, hi: i64, num: usize) -> Result<Seq<CXQueryView>, OutErrorView> {
    if partition_fits(lo, hi, num) {
        partition_queries(query, col, partition_bounds(lo, hi, num))
    } else {
        Err(OutErrorView::Other(range_too_wide_text()))
    }
}

/// Splitting by a looked-up range gives what splitting by that range, given, gives, whenever
/// the split of that range fits in `i64`.
pub proof fn lemma_found_range_splits_as_given(query: Seq<char>, col: Seq<char>, lo: i64, hi: i64, num: usize)
    requires
        partition_fits(lo, hi, num),
    ensures
        split_result(query, col, lo, hi, num) == partition_queries(query, col, partition_bounds(lo, hi, num)),
{
}

/// Whether `r` is what splitting `query` over `col` into `num` parts gives when the range is
/// looked up on the database at `path` (`col_range_result`, with `open` taking `access` and the
/// last call handing back `access_end`): the lookup's error, or the split of the found range.
pub open spec fn split_by_lookup<T, C, FO: Fn(T, &str) -> (T, Result<C, String>), FQ: Fn(T, &C, &str) -> (T, Result<RangeCell, String>)>(
    open: FO,
    fetch: FQ,
    access: T,
    path: Seq<char>,
    query: Seq<char>,
    col: Seq<char>,
    num: usize,
    access_end: T,
    r: Result<Seq<CXQueryView>, OutErrorView>,
) -> bool {
    exists|found: Result<(i64, i64), OutErrorView>| {
        &&& #[trigger] col_range_result(open, fetch, access, path, query, col, access_end, found)
        &&& match found {
            Ok((lo, hi)) => r == split_result(query, col, lo, hi, num),
            Err(e) => r == Err::<Seq<CXQueryView>, OutErrorView>(e),
        }
    }
}

/// Splitting without a range is looking the range up and splitting by it: when the lookup
/// (`get_col_range`, same source, query, column and token) gives `found`, the split without a
/// range ends on the same token and gives the lookup's error, or what splitting by the found
/// range, given, gives (when that split fits in `i64`; else the refusal of the range), provided
/// that opening and each range query give one outcome for one input.
pub proof fn law_lookup_then_split_as_given<T, C, FO: Fn(T, &str) -> (T, Result<C, String>), FQ: Fn(T, &C, &str) -> (T, Result<RangeCell, String>)>(
    open: FO,
    fetch: FQ,
    access: T,
    path: Seq<char>,
    query: Seq<char>,
    col: Seq<char>,
    num: usize,
    lookup_end: T,
    found: Result<(i64, i64), OutErrorView>,
    split_end: T,
    r: Result<Seq<CXQueryView>, OutErrorView>,
)
    requires
        open_is_functional(open),
        fetch_is_functional(fetch),
        col_range_result(open, fetch, access, path, query, col, lookup_end, found),
        split_by_lookup(open, fetch, access, path, query, col, num, split_end, r),
    ensures
        split_end == lookup_end,
        match found {
            Ok((lo, hi)) => {
                &&& partition_fits(lo, hi, num) ==> r == partition_queries(query, col, partition_bounds(lo, hi, num))
                &&& !partition_fits(lo, hi, num) ==> r == Err::<Seq<CXQueryView>, OutErrorView>(OutErrorView::Other(range_too_wide_text()))
            },
            Err(e) => r == Err::<Seq<CXQueryView>, OutErrorView>(e),
        },
{
    let f2 = choose|f: Result<(i64, i64), OutErrorView>| {
        &&& #[trigger] col_range_result(open, fetch, access, path, query, col, split_end, f)
        &&& match f {
            Ok((lo, hi)) => r == split_result(query, col, lo, hi, num),
            Err(e) => r == Err::<Seq<CXQueryView>, OutErrorView>(e),
        }
    };
    lemma_col_range_functional(open, fetch, access, path, query, col, lookup_end, found, split_end, f2);
}

/// The view of a partition result.
pub open spec fn queries_result_view(r: Result<Vec<CXQuery>, OutError>) -> Result<Seq<CXQueryView>, OutErrorView> {
    match r {
        Ok(v) => Ok(query_views(v@)),
        Err(e) => Err(e@),
    }
}

/// The part queries for the bounds `bounds`, built in order; stops at the first that fails.
fn build_part_queries(source_conn: &SourceConn, query: &str, col: &str, bounds: &Vec<(i64, i64)>) -> (r: Result<Vec<CXQuery>, OutError>)
    requires
        bounds@.len() > 0 ==> source_conn.source_type() == SourceType::SQLite,
    ensures
        queries_result_view(r) == partition_queries(query@, col@, bounds@),
{
    let mut queries: Vec<CXQuery> = Vec::new();
    let n = bounds.len();
    let mut i: usize = 0;
    assert(bounds@.take(0) =~= Seq::<(i64, i64)>::empty());
    assert(query_views(queries@) =~= Seq::<CXQueryView>::empty());
    while i < n
        invariant
            n == bounds@.len(),
            n > 0 ==> source_conn.source_type() == SourceType::SQLite,
            i <= n,
            partition_queries(query@, col@, bounds@.take(i as int)) == Ok::<Seq<CXQueryView>, OutErrorView>(query_views(queries@)),
        decreases n - i,
    {
        assert(bounds@.take(i + 1).drop_last() =~= bounds@.take(i as int));
        let (lower, upper) = bounds[i];
        match get_part_query(source_conn, query, col, lower, upper) {
            Ok(q) => {
                let ghost before = queries@;
                let ghost qv = q@;
                queries.push(q);
                assert(query_views(queries@) =~= query_views(before).push(qv));
            },
            Err(e) => {
                proof {
                    lemma_queries_error_persists(query@, col@, bounds@, i + 1);
                }
                return Err(e);
            },
        }
        i = i + 1;
    }
    assert(bounds@.take(n as int) =~= bounds@);
    Ok(queries)
}

/// Splitting gives one query per part, in the order of the parts: when it succeeds, query `i`
/// is the query for part `i`; when it fails, the error is that of some part's query.
pub proof fn lemma_one_query_per_part(query: Seq<char>, col: Seq<char>, bounds: Seq<(i64, i64)>)
    ensures
        partition_queries(query, col, bounds) matches Ok(qs) ==> {
            &&& qs.len() == bounds.len()
            &&& forall|i: int|
                0 <= i < bounds.len() ==> part_query(query, col, #[trigger] bounds[i].0, bounds[i].1)
                    == Ok::<CXQueryView, OutErrorView>(qs[i])
        },
        partition_queries(query, col, bounds) matches Err(e) ==> exists|i: int|
            0 <= i < bounds.len() && part_query(query, col, #[trigger] bounds[i].0, bounds[i].1)
                == Err::<CXQueryView, OutErrorView>(e),
    decreases bounds.len(),
{
    if bounds.len() > 0 {
        let init = bounds.drop_last();
        lemma_one_query_per_part(query, col, init);
        assert forall|i: int| 0 <= i < init.len() implies #[trigger] bounds[i] == init[i] by {}
        let last = bounds.len() - 1;
        assert(bounds[last] == bounds.last());
        match partition_queries(query, col, init) {
            Err(e) => {
                let i = choose|i: int|
                    0 <= i < init.len() && part_query(query, col, #[trigger] init[i].0, init[i].1)
                        == Err::<CXQueryView, OutErrorView>(e);
                assert(bounds[i] == init[i]);
            },
            Ok(qs) => {
                match part_query(query, col, bounds.last().0, bounds.last().1) {
                    Ok(q) => {
                        assert forall|i: int| 0 <= i < bounds.len() implies part_query(
                            query,
                            col,
                            #[trigger] bounds[i].0,
                            bounds[i].1,
                        ) == Ok::<CXQueryView, OutErrorView>(qs.push(q)[i]) by {
                            if i < last {
                                assert(bounds[i] == init[i]);
                            }
                        }
                    },
                    Err(e) => {
                        assert(part_query(query, col, bounds[last].0, bounds[last].1) == Err::<CXQueryView, OutErrorView>(e));
                    },
                }
            },
        }
    }
}

/// Once building the queries for a prefix of the bounds fails, building them for any longer
/// prefix fails with the same error.
proof fn lemma_queries_error_persists(query: Seq<char>, col: Seq<char>, bounds: Seq<(i64, i64)>, k: int)
    requires
        0 < k <= bounds.len(),
        partition_queries(query, col, bounds.take(k)) is Err,
    ensures
        partition_queries(query, col, bounds) == partition_queries(query, col, bounds.take(k)),
    decreases bounds.len() - k,
{
    if k < bounds.len() {
        assert(bounds.take(k + 1).drop_last() =~= bounds.take(k));
        lemma_queries_error_persists(query, col, bounds, k + 1);
    } else {
        assert(bounds.take(k) =~= bounds);
    }
}

/// Splits `part.query` into range queries over `part.column`, one per part of the column's
/// range. The range is the one given in `part`, or else the column's own least and greatest
/// value, looked up on the source with `open` and `fetch`, each of which takes the token the
/// call before it handed back, starting from `access`. Only the lookup opens the database: with
/// a range given, or only half of one, the `access` comes back as it was given. A count of zero
/// splits no looked-up range: it is refused as a range that cannot be split.
pub fn partition<T, C, FO, FQ>(access: T, part: &PartitionQuery, source_conn: &SourceConn, open: &FO, fetch: &FQ) -> (r: (T, Result<Vec<CXQuery>, OutError>))
    where
        FO: Fn(T, &str) -> (T, Result<C, String>),
        FQ: Fn(T, &C, &str) -> (T, Result<RangeCell, String>),
    requires
        part.min_bound() is None && part.max_bound() is None ==> {
            &&& source_conn.source_type() == SourceType::SQLite
            &&& source_conn.url().len() >= 9
        },
        part.min_bound() is Some && part.max_bound() is Some ==> {
            &&& partition_fits(part.min_bound()->0, part.max_bound()->0, part.count())
            &&& part.count() <= i64::MAX ==> source_conn.source_type() == SourceType::SQLite
        },
        forall|t: T, p: &str| call_requires(*open, (t, p)),
        forall|t: T, c: &C, q: &str| call_requires(*fetch, (t, c, q)),
    ensures
        match (part.min_bound(), part.max_bound()) {
            (Some(lo), Some(hi)) => r.0 == access && queries_result_view(r.1) == partition_queries(part.query_text(), part.column_name(), partition_bounds(lo, hi, part.count())),
            (None, None) => split_by_lookup(*open, *fetch, access, sqlite_path(source_conn.url()), part.query_text(), part.column_name(), part.count(), r.0, queries_result_view(r.1)),
            _ => r.0 == access && queries_result_view(r.1) == Err::<Seq<CXQueryView>, OutErrorView>(OutErrorView::Other(partially_specified_text())),
        },
{
    let num = part.num;
    let ghost access0 = access;
    let ghost mut found_g: Result<(i64, i64), OutErrorView> = Err(OutErrorView::Other(partially_specified_text()));
    let (access_end, min, max) = match (part.min, part.max) {
        (None, None) => {
            let (access_end, found) = get_col_range(access, source_conn, part.query.as_str(), part.column.as_str(), open, fetch);
            proof {
                found_g = range_result_view(found);
                assert(col_range_result(*open, *fetch, access0, sqlite_path(source_conn.url()), part.query_text(), part.column_name(), access_end, found_g));
            }
            match found {
                Ok(range) => {
                    if !split_fits(range.0, range.1, num) {
                        let out = (access_end, Err(OutError::Other(owned("partition_query range can not be split into partitions within i64"))));
                        assert(queries_result_view(out.1) == split_result(part.query_text(), part.column_name(), range.0, range.1, num));
                        assert(col_range_result(*open, *fetch, access0, sqlite_path(source_conn.url()), part.query_text(), part.column_name(), out.0, found_g));
                        return out;
                    }
                    (access_end, range.0, range.1)
                },
                Err(e) => {
                    return (access_end, Err(e));
                },
            }
        },
        (Some(min), Some(max)) => (access, min, max),
        _ => {
            return (access, Err(OutError::Other(owned("partition_query range can not be partially specified"))));
        },
    };
    proof {
        if num <= i64::MAX {
            lemma_partition_contiguous(min, max, num);
        }
    }
    let bounds = partition_ranges(min, max, num);
    let out = (access_end, build_part_queries(source_conn, part.query.as_str(), part.column.as_str(), &bounds));
    assert(queries_result_view(out.1) == partition_queries(part.query_text(), part.column_name(), partition_bounds(min, max, num)));
    proof {
        if part.min_bound() is None && part.max_bound() is None {
            assert(found_g == Ok::<(i64, i64), OutErrorView>((min, max)));
            assert(queries_result_view(out.1) == split_result(part.query_text(), part.column_name(), min, max, num));
            assert(col_range_result(*open, *fetch, access0, sqlite_path(source_conn.url()), part.query_text(), part.column_name(), out.0, found_g));
        }
    }
    out
}

} // verus!
