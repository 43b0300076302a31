//! Fetch-and-persist engine for market data: instrument metadata and OHLCV
//! candles are validated, partitioned into sub-batches and written with
//! idempotent upserts, driven either chunk by chunk with bounded retries or
//! one instrument at a time under a worker budget.
//!
//! The library holds the decisions; the caller performs the network and
//! storage work that each decision asks for and reports back what happened.

pub mod chunking;
pub mod driver;
pub mod error;
pub mod fetch;
pub mod models;
pub mod price;
pub mod store;
pub mod summary;
