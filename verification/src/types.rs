//! The mapping between data frame column types and SQLite declared column types.
use vstd::prelude::*;
use vstd::string::*;

use crate::text::{owned, str_eq};

verus! {

/// The type of a data frame column, as far as SQLite is concerned: 64-bit integers, 64-bit
/// floats, strings, or any other type.
#[derive(PartialEq, Eq, Structural, Clone, Copy, Debug)]
pub enum DataType {
    Int64,
    Float64,
    String,
    Other,
}

/// The column type a declared SQLite type reads as: `INTEGER` as `Int64`, `REAL` as
/// `Float64`, and everything else (`TEXT`, other types, no declared type) as `String`.
pub open spec fn decl_dtype(decl: Option<Seq<char>>) -> DataType {
    match decl {
        Some(d) => if d == "INTEGER"@ {
            DataType::Int64
        } else if d == "REAL"@ {
            DataType::Float64
        } else {
            DataType::String
        },
        None => DataType::String,
    }
}

/// The SQLite type a column of type `dtype` is declared with: `INTEGER`, `REAL`, and `TEXT`
/// for strings and for every other type.
pub open spec fn spec_sql_type_name(dtype: DataType) -> Seq<char> {
    match dtype {
        DataType::Int64 => "INTEGER"@,
        DataType::Float64 => "REAL"@,
        DataType::String => "TEXT"@,
        DataType::Other => "TEXT"@,
    }
}

/// The column type a declared SQLite type reads as.
pub fn dtype_for_decl_type(decl: Option<&str>) -> (r: DataType)
    ensures
        r == decl_dtype(
            match decl {
                Some(d) => Some(d@),
                None => None,
            },
        ),
{
    match decl {
        Some(d) => if str_eq(d, "INTEGER") {
            DataType::Int64
        } else if str_eq(d, "REAL") {
            DataType::Float64
        } else if str_eq(d, "TEXT") {
            DataType::String
        } else {
            DataType::String
        },
        None => DataType::String,
    }
}

/// The SQLite type a column of type `dtype` is declared with.
pub fn sql_type_name(dtype: DataType) -> (r: &'static str)
    ensures
        r@ == spec_sql_type_name(dtype),
{
    match dtype {
        DataType::Int64 => "INTEGER",
        DataType::Float64 => "REAL",
        DataType::String => "TEXT",
        DataType::Other => "TEXT",
    }
}

/// A column written to SQLite reads back with the type it was written with; a column of any
/// other type reads back as strings.
pub proof fn lemma_sql_type_roundtrip(dtype: DataType)
    ensures
        decl_dtype(Some(spec_sql_type_name(dtype))) == match dtype {
            DataType::Other => DataType::String,
            _ => dtype,
        },
{
    reveal_strlit("INTEGER");
    reveal_strlit("REAL");
    reveal_strlit("TEXT");
    assert("INTEGER"@.len() == 7);
    assert("REAL"@.len() == 4);
    assert("TEXT"@.len() == 4);
    assert("REAL"@[0] == 'R');
    assert("TEXT"@[0] == 'T');
}

/// A result column of a prepared statement: its name and its declared type, if any.
#[derive(Debug)]
pub struct ColumnDecl {
    pub name: String,
    pub decl_type: Option<String>,
}

/// A column of a schema: its name and type.
#[derive(Debug)]
pub struct SchemaField {
    pub name: String,
    pub dtype: DataType,
}

pub open spec fn decl_view(c: ColumnDecl) -> (Seq<char>, Option<Seq<char>>) {
    (
        c.name@,
        match c.decl_type {
            Some(d) => Some(d@),
            None => None,
        },
    )
}

pub open spec fn decl_views(cs: Seq<ColumnDecl>) -> Seq<(Seq<char>, Option<Seq<char>>)> {
    cs.map_values(|c: ColumnDecl| decl_view(c))
}

pub open spec fn field_views(fs: Seq<SchemaField>) -> Seq<(Seq<char>, DataType)> {
    fs.map_values(|f: SchemaField| (f.name@, f.dtype))
}

/// The first position of a field named `name`, or -1 when there is none.
pub open spec fn field_position(fields: Seq<(Seq<char>, DataType)>, name: Seq<char>) -> int
    decreases fields.len(),
{
    if fields.len() == 0 {
        -1
    } else {
        let k = field_position(fields.drop_last(), name);
        if k >= 0 {
            k
        } else if fields.last().0 == name {
            fields.len() - 1
        } else {
            -1
        }
    }
}

/// A schema with the field `name: dtype` added: a field of that name keeps its position and
/// takes the new type; a new name goes last.
pub open spec fn schema_insert(fields: Seq<(Seq<char>, DataType)>, name: Seq<char>, dtype: DataType) -> Seq<(Seq<char>, DataType)> {
    let k = field_position(fields, name);
    if k >= 0 {
        fields.update(k, (name, dtype))
    } else {
        fields.push((name, dtype))
    }
}

/// The schema of a statement's result columns: each column with the type its declared type
/// reads as, in order; a repeated name keeps its first position and the type of its last
/// occurrence.
pub open spec fn schema_of(decls: Seq<(Seq<char>, Option<Seq<char>>)>) -> Seq<(Seq<char>, DataType)>
    decreases decls.len(),
{
    if decls.len() == 0 {
        Seq::empty()
    } else {
        schema_insert(schema_of(decls.drop_last()), decls.last().0, decl_dtype(decls.last().1))
    }
}

proof fn lemma_position_absent(fields: Seq<(Seq<char>, DataType)>, name: Seq<char>)
    requires
        forall|k: int| 0 <= k < fields.len() ==> fields[k].0 != name,
    ensures
        field_position(fields, name) == -1,
    decreases fields.len(),
{
    if fields.len() > 0 {
        lemma_position_absent(fields.drop_last(), name);
    }
}

proof fn lemma_position_first(fields: Seq<(Seq<char>, DataType)>, name: Seq<char>, j: int)
    requires
        0 <= j < fields.len(),
        fields[j].0 == name,
        forall|k: int| 0 <= k < j ==> fields[k].0 != name,
    ensures
        field_position(fields, name) == j,
    decreases fields.len(),
{
    if j < fields.len() - 1 {
        lemma_position_first(fields.drop_last(), name, j);
    } else {
        lemma_position_absent(fields.drop_last(), name);
    }
}

/// What `field_position` finds: a field of that name at a valid position, or no such field.
proof fn lemma_position_found(fields: Seq<(Seq<char>, DataType)>, name: Seq<char>)
    ensures
        field_position(fields, name) >= 0 ==> {
            &&& field_position(fields, name) < fields.len()
            &&& fields[field_position(fields, name)].0 == name
        },
        field_position(fields, name) < 0 ==> field_position(fields, name) == -1 && !has_name(fields, name),
    decreases fields.len(),
{
    if fields.len() > 0 {
        let init = fields.drop_last();
        lemma_position_found(init, name);
        if field_position(fields, name) < 0 {
            assert forall|k: int| 0 <= k < fields.len() implies #[trigger] fields[k].0 != name by {
                if k < init.len() {
                    assert(init[k] == fields[k]);
                }
            }
        }
    }
}

/// Whether some field of `fields` is named `name`.
pub open spec fn has_name(fields: Seq<(Seq<char>, DataType)>, name: Seq<char>) -> bool {
    exists|i: int| 0 <= i < fields.len() && #[trigger] fields[i].0 == name
}

/// Whether no two fields of `fields` have the same name.
pub open spec fn names_distinct(fields: Seq<(Seq<char>, DataType)>) -> bool {
    forall|i: int, j: int| 0 <= i < j < fields.len() ==> #[trigger] fields[i].0 != #[trigger] fields[j].0
}

/// Whether some column of `decls` is named `name`.
pub open spec fn declares(decls: Seq<(Seq<char>, Option<Seq<char>>)>, name: Seq<char>) -> bool {
    exists|k: int| 0 <= k < decls.len() && #[trigger] decls[k].0 == name
}

/// Adding a field keeps the names distinct, and adds its name to the names already there.
proof fn lemma_insert_names(before: Seq<(Seq<char>, DataType)>, name: Seq<char>, dtype: DataType)
    requires
        names_distinct(before),
    ensures
        names_distinct(schema_insert(before, name, dtype)),
        has_name(schema_insert(before, name, dtype), name),
        forall|n: Seq<char>| has_name(before, n) ==> #[trigger] has_name(schema_insert(before, name, dtype), n),
        forall|n: Seq<char>| #[trigger] has_name(schema_insert(before, name, dtype), n) ==> n == name || has_name(before, n),
{
    let after = schema_insert(before, name, dtype);
    lemma_position_found(before, name);
    let pos = field_position(before, name);
    if pos >= 0 {
        assert(after.len() == before.len());
        assert forall|i: int| 0 <= i < after.len() implies #[trigger] after[i].0 == before[i].0 by {}
        assert(after[pos].0 == name);
        assert forall|n: Seq<char>| has_name(before, n) implies #[trigger] has_name(after, n) by {
            let i = choose|i: int| 0 <= i < before.len() && #[trigger] before[i].0 == n;
            assert(after[i].0 == n);
        }
        assert forall|n: Seq<char>| #[trigger] has_name(after, n) implies n == name || has_name(before, n) by {
            let i = choose|i: int| 0 <= i < after.len() && #[trigger] after[i].0 == n;
            assert(before[i].0 == n);
        }
    } else {
        assert forall|i: int| 0 <= i < before.len() implies #[trigger] after[i] == before[i] by {}
        assert(after[before.len() as int].0 == name);
        assert forall|n: Seq<char>| has_name(before, n) implies #[trigger] has_name(after, n) by {
            let i = choose|i: int| 0 <= i < before.len() && #[trigger] before[i].0 == n;
            assert(after[i].0 == n);
        }
        assert forall|n: Seq<char>| #[trigger] has_name(after, n) implies n == name || has_name(before, n) by {
            let i = choose|i: int| 0 <= i < after.len() && #[trigger] after[i].0 == n;
            if i < before.len() {
                assert(before[i].0 == n);
            }
        }
    }
}

/// A schema names each of its fields once, and its names are exactly the names of the columns
/// it was made from.
pub proof fn lemma_schema_names(decls: Seq<(Seq<char>, Option<Seq<char>>)>)
    ensures
        names_distinct(schema_of(decls)),
        forall|n: Seq<char>| #[trigger] has_name(schema_of(decls), n) <==> declares(decls, n),
    decreases decls.len(),
{
    if decls.len() > 0 {
        let init = decls.drop_last();
        let name = decls.last().0;
        lemma_schema_names(init);
        lemma_insert_names(schema_of(init), name, decl_dtype(decls.last().1));
        assert forall|n: Seq<char>| #[trigger] has_name(schema_of(decls), n) <==> declares(decls, n) by {
            if declares(decls, n) {
                let k = choose|k: int| 0 <= k < decls.len() && #[trigger] decls[k].0 == n;
                if k < init.len() {
                    assert(init[k] == decls[k]);
                    assert(declares(init, n));
                }
            }
            if declares(init, n) {
                let k = choose|k: int| 0 <= k < init.len() && #[trigger] init[k].0 == n;
                assert(decls[k] == init[k]);
            }
            if n == name {
                assert(decls[decls.len() - 1].0 == n);
            }
        }
    }
}

/// The schema of a statement's result columns, from their names and declared types.
pub fn schema_from_sqlite(columns: &Vec<ColumnDecl>) -> (r: Vec<SchemaField>)
    ensures
        field_views(r@) == schema_of(decl_views(columns@)),
{
    let ghost all = decl_views(columns@);
    let mut fields: Vec<SchemaField> = Vec::new();
    let n = columns.len();
    let mut i: usize = 0;
    assert(all.take(0) =~= Seq::<(Seq<char>, Option<Seq<char>>)>::empty());
    assert(field_views(fields@) =~= Seq::<(Seq<char>, DataType)>::empty());
    while i < n
        invariant
            n == columns@.len(),
            all == decl_views(columns@),
            i <= n,
            field_views(fields@) == schema_of(all.take(i as int)),
        decreases n - i,
    {
        assert(all.take(i + 1).drop_last() =~= all.take(i as int));
        let col = &columns[i];
        let decl: Option<&str> = match &col.decl_type {
            Some(d) => Some(d.as_str()),
            None => None,
        };
        let dtype = dtype_for_decl_type(decl);
        let ghost before = field_views(fields@);
        let m = fields.len();
        let mut j: usize = 0;
        let mut found = false;
        while j < m
            invariant_except_break
                j <= m,
                !found,
                forall|k: int| 0 <= k < j ==> before[k].0 != col.name@,
            invariant
                m == fields@.len(),
                before == field_views(fields@),
            ensures
                j <= m,
                forall|k: int| 0 <= k < j ==> before[k].0 != col.name@,
                found ==> j < m && before[j as int].0 == col.name@,
                !found ==> j == m,
            decreases m - j,
        {
            assert(before[j as int].0 == fields@[j as int].name@);
            if str_eq(fields[j].name.as_str(), col.name.as_str()) {
                found = true;
                break;
            }
            j = j + 1;
        }
        if found {
            proof {
                lemma_position_first(before, col.name@, j as int);
            }
            fields[j] = SchemaField { name: owned(col.name.as_str()), dtype };
            assert(field_views(fields@) =~= before.update(j as int, (col.name@, dtype)));
        } else {
            proof {
                lemma_position_absent(before, col.name@);
            }
            fields.push(SchemaField { name: owned(col.name.as_str()), dtype });
            assert(field_views(fields@) =~= before.push((col.name@, dtype)));
        }
        i = i + 1;
    }
    assert(all.take(n as int) =~= all);
    fields
}

} // verus!
