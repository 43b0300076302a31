//! Errors of the fetch drivers and of the store planner.

use vstd::prelude::*;

verus! {

/// Why a fetch operation did not complete.
#[derive(Clone, Copy, Debug, PartialEq, Eq, Structural)]
pub enum FetchError {
    /// A batch operation was handed no instruments.
    NoInstruments,
    /// A single-instrument fetch target has an empty symbol or an empty exchange.
    Unidentified,
    /// The instrument at `index` has an empty symbol or an empty exchange.
    MissingIdentifier { index: usize },
    /// `failed` of the `total` chunks exhausted their attempts.
    ChunksFailed { failed: usize, total: usize },
    /// `failed` of the `total` instruments of one batch could not be stored.
    InstrumentsFailed { failed: usize, total: usize },
}

/// Why a store request was refused before reaching the backend.
#[derive(Clone, Copy, Debug, PartialEq, Eq, Structural)]
pub enum StoreError {
    /// The search field is not one of the searchable columns.
    InvalidField,
}

} // verus!
