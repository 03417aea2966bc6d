//! Query-construction and response-mapping core of a read-only jewellery
//! shop API: inventory products, daily metal rates, and customer records.
//!
//! The store owns the data; this crate owns the decisions. It builds the
//! SQL text and bound parameters for every read path, gives each query an
//! executable reference semantics over modelled rows (soft-delete
//! exclusion, case-insensitive search, recency ordering, row cap), and
//! maps outcomes to HTTP status codes and payloads. Text is carried as
//! UTF-8 bytes, monetary amounts as fixed-point minor units, dates as day
//! numbers and instants as milliseconds since the Unix epoch.

pub mod eval;
pub mod laws;
pub mod query;
pub mod respond;
pub mod text;
pub mod types;

use vstd::prelude::*;

verus! {

/// Status code for a successful response.
pub const HTTP_OK: u16 = 200;

/// Status code when a by-id lookup matches no visible row.
pub const HTTP_NOT_FOUND: u16 = 404;

/// Status code when the store cannot be reached or a query fails.
pub const HTTP_INTERNAL_ERROR: u16 = 500;

} // verus!
