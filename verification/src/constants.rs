//! Constants of the Arrow loading.
use vstd::prelude::*;

verus! {

/// Default precision of an Arrow decimal.
pub const DEFAULT_ARROW_DECIMAL_PRECISION: u8 = 38;

/// Default scale of an Arrow decimal.
pub const DEFAULT_ARROW_DECIMAL_SCALE: i8 = 10;

/// Seconds in a day.
pub const SECONDS_IN_DAY: i64 = 86_400;

/// One kibi.
pub const KILO: usize = 1024;

/// Rows in one Arrow record batch.
pub const RECORD_BATCH_SIZE: usize = 64 * KILO;

/// The query parameter that names the transfer protocol in a connection string.
pub const CONNECTORX_PROTOCOL: &'static str = "cxprotocol";

} // verus!
