[package]
name = "polite"
version = "0.1.0"
edition = "2021"
publish = false

[dependencies]
connectorx = { version = "=0.4.1", default-features = false, features = ["fptr", "src_sqlite", "dst_arrow", "dst_polars"] }
polars = { version = "=0.45.1", default-features = false }
rusqlite = "=0.30.0"
sqlparser = "=0.37.0"
thiserror = "=1.0.69"
arrow = { version = "=53.4.1", default-features = false }

[dev-dependencies]
tempfile = "*"
