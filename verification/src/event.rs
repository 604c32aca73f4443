//! Events recorded by successful calls.

use vstd::prelude::*;
use crate::config::AccountId;

verus! {

/// An observable effect of a call. Each successful call records exactly one.
#[derive(Clone, Copy, Debug, PartialEq, Eq, Structural)]
pub enum Event {
    /// The account stored or replaced its identity record.
    IdentityCreated(AccountId),
    /// The first account attested to the identity of the second.
    IdentityVerified(AccountId, AccountId),
    /// The account asked for its identity to be revoked.
    IdentityRevoked(AccountId),
}

} // verus!
