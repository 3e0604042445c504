//! The account identifier used as the query key for event-nonce lookups.
//!
//! The identifier is an opaque, validated address text: the query layer
//! never reads into it, it only requires that a validated identifier is
//! never empty. Callers own the identifier and lend it to each query.

use crate::error::QueryError;
use vstd::prelude::*;

verus! {

/// A validated, chain-specific account address.
#[derive(Debug)]
pub struct AccountIdentifier {
    text: String,
}

impl View for AccountIdentifier {
    type V = Seq<char>;

    closed spec fn view(&self) -> Seq<char> {
        self.text@
    }
}

/// The detail text reported when an empty address is rejected.
pub open spec fn empty_account_text() -> Seq<char> {
    "account identifier must not be empty"@
}

impl AccountIdentifier {
    /// A validated identifier is never empty.
    pub open spec fn well_formed(self) -> bool {
        self@.len() > 0
    }

    /// Validates an address text: any non-empty text is accepted as is,
    /// and the empty text is rejected.
    pub fn new(text: String) -> (r: Result<AccountIdentifier, QueryError>)
        ensures
            r is Ok <==> text@.len() > 0,
            r matches Ok(a) ==> a@ == text@ && a.well_formed(),
            r matches Err(e) ==> e.detail@ == empty_account_text(),
    {
        if text.as_str().is_empty() {
            Err(QueryError::new("account identifier must not be empty".to_owned()))
        } else {
            Ok(AccountIdentifier { text })
        }
    }

    /// The address text of the identifier.
    pub fn as_str(&self) -> (r: &str)
        ensures
            r@ == self@,
    {
        self.text.as_str()
    }
}

} // verus!
