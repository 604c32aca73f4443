//! Failures reported to callers.

use vstd::prelude::*;

verus! {

/// Why a call was rejected.
///
/// Each of the three bounded fields has a failure of its own, so that a
/// caller learns which field to shorten. A rejected call has changed nothing
/// and recorded no event.
#[derive(Clone, Copy, Debug, PartialEq, Eq, Structural)]
pub enum Error {
    /// The target account has no identity record.
    IdentityNotFound,
    /// The caller has already attested to the target's identity.
    AlreadyVerified,
    /// The name is longer than the configured maximum.
    NameTooLong,
    /// The email address is longer than the configured maximum.
    EmailTooLong,
    /// The document hash is longer than the configured maximum.
    DocHashTooLong,
}

/// Outcome of a registry call.
pub type DispatchResult = Result<(), Error>;

} // verus!
