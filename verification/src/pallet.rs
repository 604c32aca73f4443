//! The registry service: the three calls, on state that the registry owns.

use vstd::prelude::*;
use crate::config::{AccountId, Config};
use crate::error::{DispatchResult, Error};
use crate::event::Event;
use crate::identity::IdentityInfo;
use crate::laws::{
    lemma_create_keeps_consistent, lemma_revoke_keeps_consistent, lemma_verify_keeps_consistent,
};
use crate::model::PalletView;
use crate::store::IdentityStore;
use crate::verification::VerificationRelation;

verus! {

/// An identity registry.
///
/// The caller of each operation is an account that the hosting runtime has
/// already authenticated. A call either takes effect as a whole and records
/// one event, or fails and leaves the registry exactly as it was.
pub struct Pallet {
    limits: Config,
    identities: IdentityStore,
    verifications: VerificationRelation,
    events: Vec<Event>,
}

impl View for Pallet {
    type V = PalletView;

    closed spec fn view(&self) -> PalletView {
        PalletView {
            limits: self.limits,
            identities: self.identities@,
            verifications: self.verifications@,
            events: self.events@,
        }
    }
}

impl Pallet {
    /// A registry with the given limits and nothing in it.
    pub fn new(limits: Config) -> (pallet: Pallet)
        ensures
            pallet@ == PalletView::empty(limits),
            pallet@.consistent(),
    {
        Pallet {
            limits,
            identities: IdentityStore::new(),
            verifications: VerificationRelation::new(),
            events: Vec::new(),
        }
    }

    /// The limits that the registry was created with.
    pub fn limits(&self) -> (limits: Config)
        ensures
            limits == self@.limits,
    {
        self.limits
    }

    /// The identity record of `who`, if it has one.
    pub fn identities(&self, who: AccountId) -> (found: Option<IdentityInfo>)
        ensures
            found is Some <==> self@.identities.contains_key(who),
            found matches Some(info) ==> info@ == self@.identities[who],
    {
        match self.identities.get(who) {
            Some(info) => Some(info.clone()),
            None => None,
        }
    }

    /// The attestation flag of `validator` for `owner`, if one is stored.
    /// In a consistent registry that is `Some(true)` once the validator has
    /// attested, and `None` before.
    pub fn verifications(&self, validator: AccountId, owner: AccountId) -> (flag: Option<bool>)
        ensures
            flag == (if self@.verifications.contains_key((validator, owner)) {
                Some(self@.verifications[(validator, owner)])
            } else {
                None
            }),
            self@.consistent() ==> flag != Some(false),
    {
        proof {
            if self@.consistent() {
                assert(self@.flags_set());
            }
        }
        self.verifications.get(validator, owner)
    }

    /// The events recorded so far, oldest first.
    pub fn events(&self) -> (log: &Vec<Event>)
        ensures
            log@ == self@.events,
    {
        &self.events
    }

    /// Appends `event` to the log.
    fn deposit_event(&mut self, event: Event)
        ensures
            final(self)@ == (PalletView { events: old(self)@.events.push(event), ..old(self)@ }),
    {
        self.events.push(event);
    }

    /// Stores the caller's identity, replacing any earlier record of the
    /// caller, revoked or not.
    ///
    /// Fails with the failure of the first field that is too long, in the
    /// order name, email, document hash.
    pub fn create_or_update_identity(
        &mut self,
        caller: AccountId,
        name: Vec<u8>,
        email: Vec<u8>,
        document_hash: Vec<u8>,
    ) -> (res: DispatchResult)
        ensures
            res == old(self)@.create_outcome(name@, email@, document_hash@),
            final(self)@ == old(self)@.after_create(caller, name@, email@, document_hash@),
            res is Err ==> final(self)@ == old(self)@,
            old(self)@.consistent() ==> final(self)@.consistent(),
    {
        proof {
            if self@.consistent() {
                lemma_create_keeps_consistent(self@, caller, name@, email@, document_hash@);
            }
        }
        let identity = match IdentityInfo::new(&self.limits, name, email, document_hash) {
            Ok(identity) => identity,
            Err(e) => return Err(e),
        };
        self.identities.set(caller, identity);
        self.deposit_event(Event::IdentityCreated(caller));
        Ok(())
    }

    /// Records that the caller attests to the identity of `target`.
    ///
    /// Fails with `IdentityNotFound` when the target has no record, and
    /// with `AlreadyVerified` when the caller has attested to it before.
    pub fn verify_identity(&mut self, caller: AccountId, target: AccountId) -> (res: DispatchResult)
        ensures
            res == old(self)@.verify_outcome(caller, target),
            final(self)@ == old(self)@.after_verify(caller, target),
            res is Err ==> final(self)@ == old(self)@,
            old(self)@.consistent() ==> final(self)@.consistent(),
    {
        proof {
            if self@.consistent() {
                lemma_verify_keeps_consistent(self@, caller, target);
            }
        }
        if !self.identities.contains_key(target) {
            return Err(Error::IdentityNotFound);
        }
        if self.verifications.contains_key(caller, target) {
            return Err(Error::AlreadyVerified);
        }
        self.verifications.insert(caller, target);
        self.deposit_event(Event::IdentityVerified(caller, target));
        Ok(())
    }

    /// Marks the caller's identity as revoked.
    ///
    /// Always succeeds, and always records the event: a caller without a
    /// record still has its request logged, and still has no record
    /// afterwards.
    pub fn revoke_identity(&mut self, caller: AccountId) -> (res: DispatchResult)
        ensures
            res is Ok,
            final(self)@ == old(self)@.after_revoke(caller),
            old(self)@.consistent() ==> final(self)@.consistent(),
    {
        proof {
            if self@.consistent() {
                lemma_revoke_keeps_consistent(self@, caller);
            }
        }
        let revoke = |identity: IdentityInfo| -> (revoked: IdentityInfo)
            ensures
                revoked@ == identity@.revoke(),
            {
                let mut identity = identity;
                identity.revoked = true;
                identity
            };
        self.identities.mutate(caller, revoke);
        self.deposit_event(Event::IdentityRevoked(caller));
        Ok(())
    }
}

} // verus!
