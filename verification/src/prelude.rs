//! The functions most programs need, for a single `use`.
pub use crate::{connect_sqlite, execute_query, from_dataframe, load_dataframe, save_dataframe, to_dataframe};
