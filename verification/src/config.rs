//! Deployment-time limits of the registry.

use vstd::prelude::*;

verus! {

/// Identifier of an authenticated account, as supplied by the hosting runtime.
pub type AccountId = u64;

/// Maximum byte lengths of the three identity fields.
///
/// The limits are chosen once, when a registry is created, and never change
/// afterwards.
#[derive(Clone, Copy, Debug, PartialEq, Eq, Structural)]
pub struct Config {
    /// Longest accepted name, in bytes.
    pub max_name_length: u32,
    /// Longest accepted email address, in bytes.
    pub max_email_length: u32,
    /// Longest accepted document hash, in bytes.
    pub max_doc_hash_length: u32,
}

impl Config {
    /// Bundles the three limits.
    pub fn new(max_name_length: u32, max_email_length: u32, max_doc_hash_length: u32) -> (limits:
        Config)
        ensures
            limits == (Config { max_name_length, max_email_length, max_doc_hash_length }),
    {
        Config { max_name_length, max_email_length, max_doc_hash_length }
    }
}

} // verus!
