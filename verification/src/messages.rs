//! The diagnostic texts emitted when a query attempt fails.
//!
//! The block-number and chain-identifier queries log a fixed message; the
//! event-nonce query appends the underlying failure detail to its message.
//! The asymmetry is deliberate and preserved as observed.

use crate::error::QueryError;
use vstd::prelude::*;
use vstd::string::StringExecFns;

verus! {

/// The fixed text logged when a block-number attempt fails.
pub open spec fn block_number_failure_text() -> Seq<char> {
    "Failed to get latest block! Is your Eth node working?"@
}

/// The fixed text logged when a chain-identifier attempt fails.
pub open spec fn chain_id_failure_text() -> Seq<char> {
    "Failed to get chain ID! Is your Eth node working?"@
}

/// The text logged when an event-nonce attempt fails with the given detail.
pub open spec fn event_nonce_failure_text(detail: Seq<char>) -> Seq<char> {
    "Failed to get last event nonce, is the Cosmos GRPC working? "@ + detail
}

/// The per-failure diagnostic of the event-nonce operation: the fixed
/// text with the failure detail appended.
pub open spec fn event_nonce_entry() -> spec_fn(Seq<char>) -> Seq<char> {
    |detail: Seq<char>| event_nonce_failure_text(detail)
}

/// Builds the fixed block-number failure message.
pub fn block_number_failure_message() -> (r: String)
    ensures
        r@ == block_number_failure_text(),
{
    "Failed to get latest block! Is your Eth node working?".to_owned()
}

/// Builds the fixed chain-identifier failure message.
pub fn chain_id_failure_message() -> (r: String)
    ensures
        r@ == chain_id_failure_text(),
{
    "Failed to get chain ID! Is your Eth node working?".to_owned()
}

/// Builds the event-nonce failure message, with the failure detail included.
pub fn event_nonce_failure_message(error: &QueryError) -> (r: String)
    ensures
        r@ == event_nonce_failure_text(error.detail@),
{
    let mut message = String::from_str("Failed to get last event nonce, is the Cosmos GRPC working? ");
    message.append(error.detail.as_str());
    message
}

} // verus!
