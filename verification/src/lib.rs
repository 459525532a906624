//! Verified core of a small portfolio site: visitor bookkeeping, post view
//! counters and the aggregation of Chicago incident records into ranked tables.

pub mod api;
pub mod digest;
pub mod frontend;
pub mod search;
pub mod tally;
pub mod text;
