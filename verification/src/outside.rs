//! The types of polars and connectorx that the library's signatures name. Verus sees nothing
//! inside a value of them; what the library reads of a `DataFrame` goes through the trusted
//! items of `frame`.
use vstd::prelude::*;

verus! {

/// The polars `DataFrame` a query is loaded into and a table is written from.
#[verifier::external_type_specification]
#[verifier::external_body]
pub struct ExDataFrame(polars::prelude::DataFrame);

/// A column of a polars `DataFrame`; declared because `DataFrame`'s own impls name it.
#[verifier::external_type_specification]
#[verifier::external_body]
pub struct ExPolarsColumn(polars::prelude::Column);

/// The error of a polars operation; declared because the impls of `Column` name it.
#[verifier::external_type_specification]
#[verifier::external_body]
pub struct ExPolarsError(polars::prelude::PolarsError);

/// connectorx's Arrow destination, which holds the record batches of a loaded query.
#[verifier::external_type_specification]
#[verifier::external_body]
pub struct ExArrowDestination(connectorx::destinations::arrow::ArrowDestination);

} // verus!
