//! The mathematical model of a registry: its state, what each operation
//! makes of it, and what holds of every state that the operations can reach.

use vstd::prelude::*;
use crate::config::{AccountId, Config};
use crate::error::{DispatchResult, Error};
use crate::event::Event;
use crate::identity::{check_fields, IdentityView};

verus! {

/// Where the identity of one account stands.
///
/// An account starts without a record. A submission of its own makes its
/// identity active, from any of the three positions. A revocation of its own
/// turns an active identity into a revoked one, and changes nothing else.
pub enum Status {
    /// The account has no record.
    Absent,
    /// The account has a record that is not revoked.
    Active,
    /// The account has a record that is revoked.
    Revoked,
}

/// The state of a registry.
pub struct PalletView {
    /// The limits that the registry was created with.
    pub limits: Config,
    /// The identity record of each account that has one.
    pub identities: Map<AccountId, IdentityView>,
    /// The attestation flag of each (validator, owner) pair that has one.
    pub verifications: Map<(AccountId, AccountId), bool>,
    /// Every event recorded so far, oldest first.
    pub events: Seq<Event>,
}

impl PalletView {
    /// The state of a new registry: no record, no attestation, no event.
    pub open spec fn empty(limits: Config) -> PalletView {
        PalletView {
            limits,
            identities: Map::empty(),
            verifications: Map::empty(),
            events: Seq::empty(),
        }
    }

    /// Where the identity of `who` stands.
    pub open spec fn status(self, who: AccountId) -> Status {
        if !self.identities.contains_key(who) {
            Status::Absent
        } else if self.identities[who].revoked {
            Status::Revoked
        } else {
            Status::Active
        }
    }

    /// Whether a submission of these fields is accepted.
    pub open spec fn create_outcome(
        self,
        name: Seq<u8>,
        email: Seq<u8>,
        document_hash: Seq<u8>,
    ) -> DispatchResult {
        check_fields(self.limits, name, email, document_hash)
    }

    /// The state after `caller` has submitted these fields.
    ///
    /// An accepted submission replaces the caller's record by an active one
    /// and is logged; a rejected one leaves the state as it is.
    pub open spec fn after_create(
        self,
        caller: AccountId,
        name: Seq<u8>,
        email: Seq<u8>,
        document_hash: Seq<u8>,
    ) -> PalletView {
        if self.create_outcome(name, email, document_hash) is Ok {
            PalletView {
                identities: self.identities.insert(
                    caller,
                    IdentityView::active(name, email, document_hash),
                ),
                events: self.events.push(Event::IdentityCreated(caller)),
                ..self
            }
        } else {
            self
        }
    }

    /// Whether `caller` may attest to the identity of `target`.
    ///
    /// The target needs a record, revoked or not, and the caller must not
    /// have attested to it before. A caller may attest to itself.
    pub open spec fn verify_outcome(self, caller: AccountId, target: AccountId) -> DispatchResult {
        if !self.identities.contains_key(target) {
            Err(Error::IdentityNotFound)
        } else if self.verifications.contains_key((caller, target)) {
            Err(Error::AlreadyVerified)
        } else {
            Ok(())
        }
    }

    /// The state after `caller` has asked to attest to `target`.
    pub open spec fn after_verify(self, caller: AccountId, target: AccountId) -> PalletView {
        if self.verify_outcome(caller, target) is Ok {
            PalletView {
                verifications: self.verifications.insert((caller, target), true),
                events: self.events.push(Event::IdentityVerified(caller, target)),
                ..self
            }
        } else {
            self
        }
    }

    /// The state after `caller` has asked to revoke its identity.
    ///
    /// A record of the caller is marked as revoked. The request is logged
    /// whether or not there was a record.
    pub open spec fn after_revoke(self, caller: AccountId) -> PalletView {
        PalletView {
            identities: if self.identities.contains_key(caller) {
                self.identities.insert(caller, self.identities[caller].revoke())
            } else {
                self.identities
            },
            events: self.events.push(Event::IdentityRevoked(caller)),
            ..self
        }
    }

    /// Every stored field respects its limit.
    pub open spec fn fields_bounded(self) -> bool {
        forall|who: AccountId| #[trigger]
            self.identities.contains_key(who) ==> self.identities[who].within(self.limits)
    }

    /// Every stored attestation flag is `true`.
    pub open spec fn flags_set(self) -> bool {
        forall|pair: (AccountId, AccountId)| #[trigger]
            self.verifications.contains_key(pair) ==> self.verifications[pair]
    }

    /// An account has a record only because it submitted one itself.
    pub open spec fn identities_logged(self) -> bool {
        forall|who: AccountId| #[trigger]
            self.identities.contains_key(who) ==> self.events.contains(
                Event::IdentityCreated(who),
            )
    }

    /// A record is revoked only because its owner asked for it.
    pub open spec fn revocations_logged(self) -> bool {
        forall|who: AccountId| #[trigger]
            self.identities.contains_key(who) && self.identities[who].revoked
                ==> self.events.contains(Event::IdentityRevoked(who))
    }

    /// Attestations exist only for accounts that have a record.
    pub open spec fn targets_exist(self) -> bool {
        forall|pair: (AccountId, AccountId)| #[trigger]
            self.verifications.contains_key(pair) ==> self.identities.contains_key(pair.1)
    }

    /// A pair has an attestation exactly when the validator's call is in
    /// the log.
    pub open spec fn verifications_logged(self) -> bool {
        forall|pair: (AccountId, AccountId)| #[trigger]
            self.verifications.contains_key(pair) <==> self.events.contains(
                Event::IdentityVerified(pair.0, pair.1),
            )
    }

    /// No validator has attested to the same owner twice: the log holds no
    /// attestation event at two places.
    pub open spec fn verified_once(self) -> bool {
        forall|i: int, j: int|
            0 <= i < j < self.events.len() && (#[trigger] self.events[i]) is IdentityVerified
                ==> self.events[i] != #[trigger] self.events[j]
    }

    /// What holds of a new registry and is kept by every operation.
    pub open spec fn consistent(self) -> bool {
        &&& self.fields_bounded()
        &&& self.flags_set()
        &&& self.identities_logged()
        &&& self.revocations_logged()
        &&& self.targets_exist()
        &&& self.verifications_logged()
        &&& self.verified_once()
    }
}

} // verus!
