//! Errors surfaced by the swap workflow. All of them are recoverable: each
//! one becomes a status message and leaves the workflow in a well-defined
//! state.

use vstd::prelude::*;

verus! {

/// Errors that can occur while quoting or summarising a swap.
#[derive(Clone, Copy, Debug, PartialEq, Eq, Structural)]
pub enum SwapError {
    /// The amount string is not a well-formed positive decimal.
    InvalidAmount,
    /// A symbol is not in the asset catalog.
    UnknownAsset,
    /// The summary formatter was invoked before all four request fields were
    /// set.
    IncompleteRequest,
    /// Every provider failed during a quote batch.
    NoQuotesAvailable,
}

} // verus!
