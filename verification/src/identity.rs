//! Caller identities. The engine never verifies signatures itself: the host
//! authenticates callers and the engine only compares identities for
//! equality, so an identity is an opaque token around a plain number.

use vstd::prelude::*;

verus! {

/// An authenticated caller, wallet or vault identity.
#[derive(Clone, Copy, Debug, PartialEq, Eq, Structural, Hash)]
pub struct AccountId {
    /// The host's number for this identity.
    pub value: u64,
}

impl AccountId {
    /// Wraps a host identity number.
    pub fn new(value: u64) -> (r: AccountId)
        ensures
            r.value == value,
    {
        AccountId { value }
    }
}

impl Default for AccountId {
    /// The all-zero identity, the conventional placeholder.
    fn default() -> (r: AccountId)
        ensures
            r.value == 0,
    {
        AccountId { value: 0 }
    }
}

} // verus!
