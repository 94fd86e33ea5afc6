//! Data sources and queries: the connection a query runs against, and the query text itself.
use vstd::prelude::*;
use vstd::string::*;
use vstd::utf8::is_ascii_chars;

use crate::text::{owned, str_eq};

verus! {

/// The kind of database a connection string names.
#[derive(PartialEq, Eq, Structural, Clone, Copy, Debug)]
pub enum SourceType {
    Postgres,
    SQLite,
    MySQL,
    MsSQL,
    Oracle,
    BigQuery,
    DuckDB,
    Trino,
    Unknown,
}

/// The name a source type is printed with.
pub open spec fn spec_source_type_name(ty: SourceType) -> Seq<char> {
    match ty {
        SourceType::Postgres => "Postgres"@,
        SourceType::SQLite => "SQLite"@,
        SourceType::MySQL => "MySQL"@,
        SourceType::MsSQL => "MsSQL"@,
        SourceType::Oracle => "Oracle"@,
        SourceType::BigQuery => "BigQuery"@,
        SourceType::DuckDB => "DuckDB"@,
        SourceType::Trino => "Trino"@,
        SourceType::Unknown => "Unknown"@,
    }
}

/// The source type that a printed name stands for; a name of no known type stands for
/// `Unknown`.
pub open spec fn spec_source_type_from_name(name: Seq<char>) -> SourceType {
    if name == "Postgres"@ {
        SourceType::Postgres
    } else if name == "SQLite"@ {
        SourceType::SQLite
    } else if name == "MySQL"@ {
        SourceType::MySQL
    } else if name == "MsSQL"@ {
        SourceType::MsSQL
    } else if name == "Oracle"@ {
        SourceType::Oracle
    } else if name == "BigQuery"@ {
        SourceType::BigQuery
    } else if name == "DuckDB"@ {
        SourceType::DuckDB
    } else if name == "Trino"@ {
        SourceType::Trino
    } else {
        SourceType::Unknown
    }
}

/// The name `ty` is printed with.
pub fn source_type_name(ty: SourceType) -> (r: &'static str)
    ensures
        r@ == spec_source_type_name(ty),
{
    match ty {
        SourceType::Postgres => "Postgres",
        SourceType::SQLite => "SQLite",
        SourceType::MySQL => "MySQL",
        SourceType::MsSQL => "MsSQL",
        SourceType::Oracle => "Oracle",
        SourceType::BigQuery => "BigQuery",
        SourceType::DuckDB => "DuckDB",
        SourceType::Trino => "Trino",
        SourceType::Unknown => "Unknown",
    }
}

/// The source type that the printed `name` stands for.
pub fn source_type_from_name(name: &str) -> (r: SourceType)
    ensures
        r == spec_source_type_from_name(name@),
{
    if str_eq(name, "Postgres") {
        SourceType::Postgres
    } else if str_eq(name, "SQLite") {
        SourceType::SQLite
    } else if str_eq(name, "MySQL") {
        SourceType::MySQL
    } else if str_eq(name, "MsSQL") {
        SourceType::MsSQL
    } else if str_eq(name, "Oracle") {
        SourceType::Oracle
    } else if str_eq(name, "BigQuery") {
        SourceType::BigQuery
    } else if str_eq(name, "DuckDB") {
        SourceType::DuckDB
    } else if str_eq(name, "Trino") {
        SourceType::Trino
    } else {
        SourceType::Unknown
    }
}

/// Printing a source type and reading the name back gives the same source type.
pub proof fn lemma_source_type_name_roundtrip(ty: SourceType)
    ensures
        spec_source_type_from_name(spec_source_type_name(ty)) == ty,
{
    reveal_strlit("Postgres");
    reveal_strlit("SQLite");
    reveal_strlit("MySQL");
    reveal_strlit("MsSQL");
    reveal_strlit("Oracle");
    reveal_strlit("BigQuery");
    reveal_strlit("DuckDB");
    reveal_strlit("Trino");
    reveal_strlit("Unknown");
    assert("Postgres"@[0] == 'P');
    assert("SQLite"@[0] == 'S');
    assert("MySQL"@[1] == 'y');
    assert("MsSQL"@[1] == 's');
    assert("Oracle"@[0] == 'O');
    assert("BigQuery"@[0] == 'B');
    assert("DuckDB"@[0] == 'D');
    assert("Trino"@[0] == 'T');
    assert("Unknown"@[0] == 'U');
}

/// A parsed connection string: the kind of source, the URL (always ASCII text, as a URL's
/// serialization is), and the transfer protocol asked for.
#[derive(Debug)]
pub struct SourceConn {
    ty: SourceType,
    conn: String,
    proto: String,
}

impl SourceConn {
    #[verifier::type_invariant]
    spec fn url_is_ascii(self) -> bool {
        is_ascii_chars(self.conn@)
    }

    pub closed spec fn source_type(self) -> SourceType {
        self.ty
    }

    pub closed spec fn url(self) -> Seq<char> {
        self.conn@
    }

    pub closed spec fn protocol(self) -> Seq<char> {
        self.proto@
    }

    /// A connection of type `ty` to the URL `conn` with protocol `proto`.
    pub fn new(ty: SourceType, conn: &str, proto: &str) -> (r: Self)
        requires
            is_ascii_chars(conn@),
        ensures
            r.source_type() == ty,
            r.url() == conn@,
            r.protocol() == proto@,
    {
        SourceConn { ty, conn: owned(conn), proto: owned(proto) }
    }

    pub fn ty(&self) -> (r: SourceType)
        ensures
            r == self.source_type(),
    {
        self.ty
    }

    pub fn conn(&self) -> (r: &str)
        ensures
            r@ == self.url(),
            is_ascii_chars(r@),
    {
        proof {
            use_type_invariant(self);
        }
        self.conn.as_str()
    }

    pub fn proto(&self) -> (r: &str)
        ensures
            r@ == self.protocol(),
    {
        self.proto.as_str()
    }

    /// Replaces the transfer protocol.
    pub fn set_protocol(&mut self, protocol: &str)
        ensures
            final(self).source_type() == old(self).source_type(),
            final(self).url() == old(self).url(),
            final(self).protocol() == protocol@,
    {
        proof {
            use_type_invariant(&*self);
        }
        self.proto = owned(protocol);
    }

    /// Parses a connection string such as `sqlite:///path/to/db.sqlite`.
    pub fn parse(conn: &str) -> (r: Result<Self, String>)
        ensures
            match r {
                Ok(c) => parsed_connection_parts(conn@) matches Ok((name, url, proto)) && {
                    &&& c.source_type() == spec_source_type_from_name(name)
                    &&& c.url() == url
                    &&& c.protocol() == proto
                },
                Err(m) => parsed_connection_parts(conn@) == Err::<(Seq<char>, Seq<char>, Seq<char>), Seq<char>>(m@),
            },
            r is Ok && "sqlite://"@.is_prefix_of(conn@) ==> {
                &&& r->Ok_0.source_type() == SourceType::SQLite
                &&& "sqlite://"@.is_prefix_of(r->Ok_0.url())
            },
    {
        let parts = connection_parts(conn);
        match parts {
            Ok((name, url, proto)) => {
                proof {
                    if "sqlite://"@.is_prefix_of(conn@) {
                        reveal_strlit("SQLite");
                        reveal_strlit("Postgres");
                        assert(name@ == "SQLite"@);
                        assert(name@.len() == 6);
                        assert("Postgres"@.len() == 8);
                        assert(name@ != "Postgres"@);
                    }
                }
                Ok(SourceConn { ty: source_type_from_name(name.as_str()), conn: url, proto })
            },
            Err(m) => Err(m),
        }
    }
}

/// What connectorx's `SourceConn::try_from` gives for a connection string: the printed name of
/// the source type, the URL's serialization and the protocol; or the text of its error.
pub uninterp spec fn parsed_connection_parts(conn: Seq<char>) -> Result<(Seq<char>, Seq<char>, Seq<char>), Seq<char>>;

/// Calls connectorx's `SourceConn::try_from(&str)` and hands back its three parts as text: the
/// `Debug` name of the source type, the URL's serialization and the protocol; or the `Display`
/// text of the `ConnectorXError`.
/// Claimed of the call beyond the name: a URL's serialization is ASCII (url documents each part
/// of it as an ASCII string); a string that begins with `sqlite://` parses, when it parses at
/// all, to the type `SQLite` and a serialization that begins with `sqlite://` (url lower-cases
/// the scheme and keeps the `//` of an authority; connectorx picks the type by the scheme).
#[verifier::external_body]
fn connection_parts(conn: &str) -> (r: Result<(String, String, String), String>)
    ensures
        match r {
            Ok((name, url, proto)) => {
                &&& parsed_connection_parts(conn@) == Ok::<(Seq<char>, Seq<char>, Seq<char>), Seq<char>>((name@, url@, proto@))
                &&& is_ascii_chars(url@)
            },
            Err(m) => parsed_connection_parts(conn@) == Err::<(Seq<char>, Seq<char>, Seq<char>), Seq<char>>(m@),
        },
        r is Ok && "sqlite://"@.is_prefix_of(conn@) ==> {
            &&& r->Ok_0.0@ == "SQLite"@
            &&& "sqlite://"@.is_prefix_of(r->Ok_0.1@)
        },
{
    match <connectorx::source_router::SourceConn as std::convert::TryFrom<&str>>::try_from(conn) {
        Ok(c) => Ok((format!("{:?}", c.ty), c.conn.as_str().to_string(), c.proto)),
        Err(e) => Err(e.to_string()),
    }
}

/// The view of a query: its text, and whether it is already wrapped in a subquery.
pub enum CXQueryView {
    Naked(Seq<char>),
    Wrapped(Seq<char>),
}

/// A query as the user wrote it (`Naked`) or already wrapped in a derived table (`Wrapped`).
#[derive(Debug)]
pub enum CXQuery {
    Naked(String),
    Wrapped(String),
}

impl View for CXQuery {
    type V = CXQueryView;

    open spec fn view(&self) -> CXQueryView {
        match self {
            CXQuery::Naked(q) => CXQueryView::Naked(q@),
            CXQuery::Wrapped(q) => CXQueryView::Wrapped(q@),
        }
    }
}

impl CXQuery {
    /// The query exactly as the user wrote it.
    pub fn naked(q: &str) -> (r: Self)
        ensures
            r@ == CXQueryView::Naked(q@),
    {
        CXQuery::Naked(owned(q))
    }

    /// The text of the query.
    pub fn as_str(&self) -> (r: &str)
        ensures
            r@ == match self@ {
                CXQueryView::Naked(q) => q,
                CXQueryView::Wrapped(q) => q,
            },
    {
        match self {
            CXQuery::Naked(q) => q.as_str(),
            CXQuery::Wrapped(q) => q.as_str(),
        }
    }
}

/// The views of a list of queries.
pub open spec fn query_views(qs: Seq<CXQuery>) -> Seq<CXQueryView> {
    qs.map_values(|q: CXQuery| q@)
}

} // verus!
