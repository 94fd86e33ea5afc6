# polite

A rusqlite × Polars bridge: runs SQLite queries into data frames and writes data frames into
SQLite tables, with its logic verified by Verus.

## Layout

- `src/` — the verified library.
  - `dataframe.rs`, `db.rs`, `lib.rs`: loading a query into a frame, writing a frame into a
    table, opening databases and running statements, and the `load_dataframe` /
    `save_dataframe` wrappers. The database work itself (opening SQLite, running a statement,
    loading through connectorx) is done by closures the caller hands in; the contracts state
    what each closure is handed and how each of its outcomes is reported. A closure that
    changes the database takes the connection and hands it back, and a closure that loads a
    query or opens a database for a lookup takes a token and hands it back, so that a contract
    states the exact sequence of calls made, and which calls were not made. The laws that
    compare two runs (`load_dataframe` against `to_dataframe`, `save_dataframe` against
    `connect_sqlite` then `from_dataframe`, a split by a looked-up range against a split by the
    same range given, a load with pre-execution statements against one without) hold of
    closures that give one outcome for one input, as the database work does on a database that
    does not change between the runs.
  - `partition.rs`: splitting a query into range queries over an integer column, with the laws
    that the parts are laid end to end and hold every value of the range exactly once.
  - `get_arrow.rs`, `source.rs`: connection strings and the dispatch of queries by source type.
  - `statements.rs`, `types.rs`, `frame.rs`: the SQL written for a frame, the mapping between
    column types and SQLite types, and how a polars `DataFrame` is read.
  - `cli.rs`: the decisions of the command-line tool.
  - `error.rs`, `text.rs`, `constants.rs`, `prelude.rs`, `outside.rs`: errors and their texts,
    string helpers, constants, re-exports, and the polars and connectorx types carried through.
- `app/` — the command-line program and the glue that does the database work with rusqlite,
  connectorx and polars.
- `tests/` — tests of the library, on plain values and on real SQLite databases.
