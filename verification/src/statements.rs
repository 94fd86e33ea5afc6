//! The SQL statements that write a data frame into a table.
use vstd::prelude::*;
use vstd::string::*;

use crate::frame::{ValuesView, df_column_kind, df_column_name, df_width, polars_columns, row_view, values_dtype};
use polars::prelude::DataFrame;
use crate::text::{join, owned, seq_join, views};
use crate::types::{spec_sql_type_name, sql_type_name};

verus! {

/// The definition of a column in a `CREATE TABLE` statement: its name and its SQLite type.
pub open spec fn column_definition(c: (Seq<char>, ValuesView)) -> Seq<char> {
    c.0 + " "@ + spec_sql_type_name(values_dtype(c.1))
}

/// The column definitions of a table for the columns `cols`, in order.
pub open spec fn column_definitions(cols: Seq<(Seq<char>, ValuesView)>) -> Seq<Seq<char>> {
    cols.map_values(|c: (Seq<char>, ValuesView)| column_definition(c))
}

/// `CREATE TABLE IF NOT EXISTS <table> (<definitions joined by ", ">)`.
pub open spec fn create_table_text(table: Seq<char>, cols: Seq<(Seq<char>, ValuesView)>) -> Seq<char> {
    "CREATE TABLE IF NOT EXISTS "@ + table + " ("@ + seq_join(column_definitions(cols), ", "@)
        + ")"@
}

/// `n` placeholders.
pub open spec fn placeholders(n: nat) -> Seq<Seq<char>> {
    Seq::new(n, |i: int| "?"@)
}

/// `INSERT INTO <table> VALUES (<width placeholders joined by ", ">)`.
pub open spec fn insert_text(table: Seq<char>, width: nat) -> Seq<char> {
    "INSERT INTO "@ + table + " VALUES ("@ + seq_join(placeholders(width), ", "@) + ")"@
}

/// The statement that creates the table `table` for the columns of `df`, unless it exists.
pub fn create_table_statement(table: &str, df: &DataFrame) -> (r: String)
    ensures
        r@ == create_table_text(table@, polars_columns(*df)),
{
    let ghost cols = polars_columns(*df);
    let n = df_width(df);
    let mut defs: Vec<String> = Vec::new();
    let mut i: usize = 0;
    while i < n
        invariant
            n == cols.len(),
            cols == polars_columns(*df),
            i <= n,
            views(defs@) =~= column_definitions(cols.take(i as int)),
        decreases n - i,
    {
        let mut def = df_column_name(df, i);
        def.append(" ");
        def.append(sql_type_name(df_column_kind(df, i)));
        let ghost before = defs@;
        let ghost dv = def@;
        defs.push(def);
        assert(views(defs@) =~= views(before).push(dv));
        assert(cols.take(i + 1) =~= cols.take(i as int).push(cols[i as int]));
        i = i + 1;
    }
    assert(cols.take(n as int) =~= cols);
    let list = join(&defs, ", ");
    let mut r = owned("CREATE TABLE IF NOT EXISTS ");
    r.append(table);
    r.append(" (");
    r.append(list.as_str());
    r.append(")");
    r
}

/// The statement that inserts one row of `width` values into the table `table`.
pub fn insert_statement(table: &str, width: usize) -> (r: String)
    ensures
        r@ == insert_text(table@, width as nat),
{
    let mut marks: Vec<String> = Vec::new();
    let mut i: usize = 0;
    while i < width
        invariant
            i <= width,
            views(marks@) =~= placeholders(i as nat),
        decreases width - i,
    {
        let ghost before = marks@;
        let m = owned("?");
        let ghost mv = m@;
        marks.push(m);
        assert(views(marks@) =~= views(before).push(mv));
        i = i + 1;
    }
    let list = join(&marks, ", ");
    let mut r = owned("INSERT INTO ");
    r.append(table);
    r.append(" VALUES (");
    r.append(list.as_str());
    r.append(")");
    r
}

/// The number of times `c` occurs in `s`.
pub open spec fn char_count(s: Seq<char>, c: char) -> nat
    decreases s.len(),
{
    if s.len() == 0 {
        0
    } else {
        char_count(s.drop_last(), c) + if s.last() == c {
            1nat
        } else {
            0nat
        }
    }
}

proof fn lemma_char_count_concat(a: Seq<char>, b: Seq<char>, c: char)
    ensures
        char_count(a + b, c) == char_count(a, c) + char_count(b, c),
    decreases b.len(),
{
    if b.len() > 0 {
        assert((a + b).drop_last() =~= a + b.drop_last());
        lemma_char_count_concat(a, b.drop_last(), c);
    } else {
        assert(a + b =~= a);
    }
}

proof fn lemma_placeholder_count(n: nat)
    ensures
        char_count(seq_join(placeholders(n), ", "@), '?') == n,
    decreases n,
{
    reveal_strlit("?");
    reveal_strlit(", ");
    assert(char_count("?"@, '?') == 1) by {
        assert("?"@.len() == 1 && "?"@[0] == '?');
        assert("?"@.drop_last() =~= Seq::<char>::empty());
        reveal_with_fuel(char_count, 2);
    }
    assert(char_count(", "@, '?') == 0) by {
        assert(", "@.len() == 2 && ", "@[0] == ',' && ", "@[1] == ' ');
        assert(", "@.drop_last().drop_last() =~= Seq::<char>::empty());
        reveal_with_fuel(char_count, 3);
    }
    if n == 1 {
    } else if n > 1 {
        assert(placeholders(n).drop_last() =~= placeholders((n - 1) as nat));
        lemma_placeholder_count((n - 1) as nat);
        lemma_char_count_concat(seq_join(placeholders((n - 1) as nat), ", "@), ", "@, '?');
        lemma_char_count_concat(seq_join(placeholders((n - 1) as nat), ", "@) + ", "@, "?"@, '?');
    }
}

/// The insert statement for a frame holds one placeholder for each value of each of its rows:
/// its list of values has as many `?` as the frame has columns, which is the number of values
/// a row of the frame gives.
pub proof fn lemma_insert_matches_rows(cols: Seq<(Seq<char>, ValuesView)>, row: int)
    ensures
        char_count(seq_join(placeholders(cols.len()), ", "@), '?') == cols.len(),
        row_view(cols, row).len() == cols.len(),
{
    lemma_placeholder_count(cols.len());
}

} // verus!
