//! The one error shape that the query layer ever sees.
//!
//! Exactly one recoverable condition exists at this layer: "the underlying
//! query failed". It is always treated as transient, so it carries nothing
//! but a human-readable detail text.

use vstd::prelude::*;

verus! {

/// A transient failure reported by an underlying endpoint.
#[derive(Debug)]
pub struct QueryError {
    /// Human-readable description of the failure.
    pub detail: String,
}

impl QueryError {
    /// Builds an error from its detail text.
    pub fn new(detail: String) -> (r: QueryError)
        ensures
            r.detail@ == detail@,
    {
        QueryError { detail }
    }
}

} // verus!
