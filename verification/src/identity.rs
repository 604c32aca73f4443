//! The identity record of one account.

use vstd::prelude::*;
use crate::bounded::{bound, fits};
use crate::config::Config;
use crate::error::Error;

verus! {

/// A self-asserted identity claim.
///
/// A record stored in a registry respects the registry's limits on each of
/// its three byte fields.
#[derive(Debug)]
pub struct IdentityInfo {
    /// Display name.
    pub name: Vec<u8>,
    /// Contact address.
    pub email: Vec<u8>,
    /// Hash of an identity document; opaque to the registry.
    pub document_hash: Vec<u8>,
    /// Set once the owner has revoked the claim.
    pub revoked: bool,
}

/// Mathematical value of an [`IdentityInfo`].
pub struct IdentityView {
    /// The bytes of the name.
    pub name: Seq<u8>,
    /// The bytes of the email address.
    pub email: Seq<u8>,
    /// The bytes of the document hash.
    pub document_hash: Seq<u8>,
    /// Whether the claim is revoked.
    pub revoked: bool,
}

impl IdentityView {
    /// The record that a successful submission stores: the three fields as
    /// given, not revoked.
    pub open spec fn active(name: Seq<u8>, email: Seq<u8>, document_hash: Seq<u8>) -> IdentityView {
        IdentityView { name, email, document_hash, revoked: false }
    }

    /// The same claim, marked as revoked.
    pub open spec fn revoke(self) -> IdentityView {
        IdentityView { revoked: true, ..self }
    }

    /// Every field respects its limit.
    pub open spec fn within(self, limits: Config) -> bool {
        &&& fits(self.name, limits.max_name_length)
        &&& fits(self.email, limits.max_email_length)
        &&& fits(self.document_hash, limits.max_doc_hash_length)
    }
}

impl View for IdentityInfo {
    type V = IdentityView;

    open spec fn view(&self) -> IdentityView {
        IdentityView {
            name: self.name@,
            email: self.email@,
            document_hash: self.document_hash@,
            revoked: self.revoked,
        }
    }
}

/// Outcome of the length checks on a submission.
///
/// The fields are checked in the order name, email, document hash, and the
/// first one that is too long decides the failure.
pub open spec fn check_fields(
    limits: Config,
    name: Seq<u8>,
    email: Seq<u8>,
    document_hash: Seq<u8>,
) -> Result<(), Error> {
    if !fits(name, limits.max_name_length) {
        Err(Error::NameTooLong)
    } else if !fits(email, limits.max_email_length) {
        Err(Error::EmailTooLong)
    } else if !fits(document_hash, limits.max_doc_hash_length) {
        Err(Error::DocHashTooLong)
    } else {
        Ok(())
    }
}

impl IdentityInfo {
    /// Builds the record for a submission, or names the first field that is
    /// too long.
    pub fn new(limits: &Config, name: Vec<u8>, email: Vec<u8>, document_hash: Vec<u8>) -> (res:
        Result<IdentityInfo, Error>)
        ensures
            res is Ok <==> check_fields(*limits, name@, email@, document_hash@) is Ok,
            res matches Ok(info) ==> info@ == IdentityView::active(name@, email@, document_hash@)
                && info@.within(*limits),
            res matches Err(e) ==> check_fields(*limits, name@, email@, document_hash@) == Err::<
                (),
                Error,
            >(e),
    {
        let name = match bound(name, limits.max_name_length, Error::NameTooLong) {
            Ok(bytes) => bytes,
            Err(e) => return Err(e),
        };
        let email = match bound(email, limits.max_email_length, Error::EmailTooLong) {
            Ok(bytes) => bytes,
            Err(e) => return Err(e),
        };
        let document_hash = match bound(
            document_hash,
            limits.max_doc_hash_length,
            Error::DocHashTooLong,
        ) {
            Ok(bytes) => bytes,
            Err(e) => return Err(e),
        };
        Ok(IdentityInfo { name, email, document_hash, revoked: false })
    }
}

impl Default for IdentityInfo {
    /// The empty, unrevoked record.
    fn default() -> (info: IdentityInfo)
        ensures
            info@ == IdentityView::active(Seq::empty(), Seq::empty(), Seq::empty()),
    {
        IdentityInfo {
            name: Vec::new(),
            email: Vec::new(),
            document_hash: Vec::new(),
            revoked: false,
        }
    }
}

impl Clone for IdentityInfo {
    fn clone(&self) -> (copy: IdentityInfo)
        ensures
            copy@ == self@,
    {
        IdentityInfo {
            name: self.name.clone(),
            email: self.email.clone(),
            document_hash: self.document_hash.clone(),
            revoked: self.revoked,
        }
    }
}

impl PartialEq for IdentityInfo {
    /// Two records are equal when they hold the same bytes and the same flag.
    fn eq(&self, other: &IdentityInfo) -> (same: bool) {
        let same = self.name == other.name && self.email == other.email && self.document_hash
            == other.document_hash && self.revoked == other.revoked;
        proof {
            lemma_same_bytes(self.name@, other.name@);
            lemma_same_bytes(self.email@, other.email@);
            lemma_same_bytes(self.document_hash@, other.document_hash@);
        }
        same
    }
}

impl Eq for IdentityInfo {

}

impl vstd::std_specs::cmp::PartialEqSpecImpl for IdentityInfo {
    open spec fn obeys_eq_spec() -> bool {
        true
    }

    open spec fn eq_spec(&self, other: &IdentityInfo) -> bool {
        self@ == other@
    }
}

/// Byte strings of one length that agree at every index are the same string.
proof fn lemma_same_bytes(a: Seq<u8>, b: Seq<u8>)
    ensures
        a == b <==> (a.len() == b.len() && forall|i: int| 0 <= i < a.len() ==> a[i] == b[i]),
{
    if a.len() == b.len() && (forall|i: int| 0 <= i < a.len() ==> a[i] == b[i]) {
        assert(a =~= b);
    }
}

} // verus!
