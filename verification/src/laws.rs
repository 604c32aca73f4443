//! Laws of the registry, proved of the model in [`crate::model`].
//!
//! The contract of each operation of a [`crate::Pallet`] gives its result
//! and the state it leaves as a function of that model, so what is proved
//! here of the model holds of every registry.

use vstd::prelude::*;
use crate::config::{AccountId, Config};
use crate::error::Error;
use crate::event::Event;
use crate::model::{PalletView, Status};

verus! {

/// A log with one more event holds what it held before, and that event.
proof fn lemma_push_contains(log: Seq<Event>, pushed: Event, sought: Event)
    ensures
        log.push(pushed).contains(sought) <==> log.contains(sought) || sought == pushed,
{
    let longer = log.push(pushed);
    if log.contains(sought) {
        let i = choose|i: int| 0 <= i < log.len() && log[i] == sought;
        assert(longer[i] == sought);
    }
    if sought == pushed {
        assert(longer[log.len() as int] == sought);
    }
    if longer.contains(sought) {
        let i = choose|i: int| 0 <= i < longer.len() && longer[i] == sought;
        if i < log.len() {
            assert(log[i] == sought);
        }
    }
}

/// A new registry is consistent.
pub proof fn lemma_empty_consistent(limits: Config)
    ensures
        PalletView::empty(limits).consistent(),
{
}

/// A submission, accepted or not, keeps the registry consistent.
pub proof fn lemma_create_keeps_consistent(
    state: PalletView,
    caller: AccountId,
    name: Seq<u8>,
    email: Seq<u8>,
    document_hash: Seq<u8>,
)
    requires
        state.consistent(),
    ensures
        state.after_create(caller, name, email, document_hash).consistent(),
{
    let next = state.after_create(caller, name, email, document_hash);
    if state.create_outcome(name, email, document_hash) is Ok {
        let created = Event::IdentityCreated(caller);
        assert forall|sought: Event|
            next.events.contains(sought) <==> state.events.contains(sought) || sought
                == created by {
            lemma_push_contains(state.events, created, sought);
        }
    }
}

/// A request to attest, accepted or not, keeps the registry consistent.
pub proof fn lemma_verify_keeps_consistent(state: PalletView, caller: AccountId, target: AccountId)
    requires
        state.consistent(),
    ensures
        state.after_verify(caller, target).consistent(),
{
    let next = state.after_verify(caller, target);
    if state.verify_outcome(caller, target) is Ok {
        let verified = Event::IdentityVerified(caller, target);
        assert forall|sought: Event|
            next.events.contains(sought) <==> state.events.contains(sought) || sought
                == verified by {
            lemma_push_contains(state.events, verified, sought);
        }
        // The new event is the last one. It differs from every earlier one:
        // an earlier attestation of the pair would be in the relation.
        assert forall|i: int, j: int|
            0 <= i < j < next.events.len() && (#[trigger] next.events[i]) is IdentityVerified
                implies next.events[i] != #[trigger] next.events[j] by {
            if j < state.events.len() {
                assert(next.events[j] == state.events[j]);
            } else {
                assert(state.events.contains(state.events[i]));
            }
        }
    }
}

/// A request to revoke keeps the registry consistent.
pub proof fn lemma_revoke_keeps_consistent(state: PalletView, caller: AccountId)
    requires
        state.consistent(),
    ensures
        state.after_revoke(caller).consistent(),
{
    let next = state.after_revoke(caller);
    let revoked = Event::IdentityRevoked(caller);
    assert forall|sought: Event|
        next.events.contains(sought) <==> state.events.contains(sought) || sought == revoked by {
        lemma_push_contains(state.events, revoked, sought);
    }
}

/// An accepted submission makes the caller's identity active, wherever it
/// stood before, and moves no other account.
pub proof fn lemma_create_activates(
    state: PalletView,
    caller: AccountId,
    name: Seq<u8>,
    email: Seq<u8>,
    document_hash: Seq<u8>,
)
    requires
        state.create_outcome(name, email, document_hash) is Ok,
    ensures
        ({
            let next = state.after_create(caller, name, email, document_hash);
            &&& next.status(caller) == Status::Active
            &&& forall|other: AccountId|
                other != caller ==> #[trigger] next.status(other) == state.status(other)
        }),
{
}

/// A request to attest, accepted or not, moves no account.
pub proof fn lemma_verify_moves_nobody(state: PalletView, caller: AccountId, target: AccountId)
    ensures
        forall|who: AccountId| #[trigger]
            state.after_verify(caller, target).status(who) == state.status(who),
{
}

/// A request to revoke turns an active identity of the caller into a revoked
/// one, keeping its fields. An absent or a revoked identity stays as it
/// is, no other account moves, and no attestation is taken back.
pub proof fn lemma_revoke_moves_caller(state: PalletView, caller: AccountId)
    ensures
        ({
            let next = state.after_revoke(caller);
            &&& next.status(caller) == match state.status(caller) {
                Status::Absent => Status::Absent,
                Status::Active => Status::Revoked,
                Status::Revoked => Status::Revoked,
            }
            &&& state.status(caller) == Status::Active ==> next.identities[caller]
                == state.identities[caller].revoke()
            &&& state.status(caller) != Status::Active ==> next.identities == state.identities
            &&& forall|other: AccountId|
                other != caller ==> #[trigger] next.status(other) == state.status(other)
            &&& next.verifications == state.verifications
        }),
{
    let next = state.after_revoke(caller);
    if state.status(caller) == Status::Revoked {
        assert(state.identities[caller].revoke() == state.identities[caller]);
        assert(next.identities =~= state.identities);
    }
}

/// A rejected call changes nothing and records no event.
pub proof fn lemma_failure_changes_nothing(
    state: PalletView,
    caller: AccountId,
    target: AccountId,
    name: Seq<u8>,
    email: Seq<u8>,
    document_hash: Seq<u8>,
)
    ensures
        state.create_outcome(name, email, document_hash) is Err ==> state.after_create(
            caller,
            name,
            email,
            document_hash,
        ) == state,
        state.verify_outcome(caller, target) is Err ==> state.after_verify(caller, target)
            == state,
{
}

/// After an accepted submission the caller's record is active and holds
/// exactly the fields that were submitted.
pub proof fn lemma_create_round_trip(
    state: PalletView,
    caller: AccountId,
    name: Seq<u8>,
    email: Seq<u8>,
    document_hash: Seq<u8>,
)
    requires
        state.create_outcome(name, email, document_hash) is Ok,
    ensures
        ({
            let next = state.after_create(caller, name, email, document_hash);
            &&& next.identities.contains_key(caller)
            &&& next.identities[caller].name == name
            &&& next.identities[caller].email == email
            &&& next.identities[caller].document_hash == document_hash
            &&& !next.identities[caller].revoked
        }),
{
}

/// A submission whose name is longer than the limit fails with
/// `NameTooLong`, whatever the other fields hold, and changes nothing.
pub proof fn lemma_long_name_rejected(
    state: PalletView,
    caller: AccountId,
    name: Seq<u8>,
    email: Seq<u8>,
    document_hash: Seq<u8>,
)
    requires
        name.len() > state.limits.max_name_length,
    ensures
        state.create_outcome(name, email, document_hash) == Err::<(), Error>(Error::NameTooLong),
        state.after_create(caller, name, email, document_hash) == state,
{
}

/// After an accepted attestation, the same request from the same validator
/// fails with `AlreadyVerified` and changes nothing: the flag of the pair
/// is `true` before and after the second request.
pub proof fn lemma_second_verification_rejected(
    state: PalletView,
    validator: AccountId,
    owner: AccountId,
)
    requires
        state.verify_outcome(validator, owner) is Ok,
    ensures
        ({
            let once = state.after_verify(validator, owner);
            let twice = once.after_verify(validator, owner);
            &&& once.verifications.contains_key((validator, owner))
            &&& once.verifications[(validator, owner)]
            &&& once.verify_outcome(validator, owner) == Err::<(), Error>(Error::AlreadyVerified)
            &&& twice == once
        }),
{
}

/// A request to attest to an account without a record fails with
/// `IdentityNotFound` and creates no attestation.
pub proof fn lemma_verify_needs_identity(state: PalletView, validator: AccountId, owner: AccountId)
    requires
        !state.identities.contains_key(owner),
    ensures
        state.verify_outcome(validator, owner) == Err::<(), Error>(Error::IdentityNotFound),
        state.after_verify(validator, owner) == state,
{
}

/// A request to revoke from an account without a record is logged, and the
/// account has no record afterwards either.
pub proof fn lemma_revoke_without_identity(state: PalletView, caller: AccountId)
    requires
        !state.identities.contains_key(caller),
    ensures
        ({
            let next = state.after_revoke(caller);
            &&& !next.identities.contains_key(caller)
            &&& next.identities == state.identities
            &&& next.events == state.events.push(Event::IdentityRevoked(caller))
        }),
{
}

} // verus!
