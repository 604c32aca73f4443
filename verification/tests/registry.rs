use identity_pallet::{Config, Error, Event, IdentityInfo, Pallet};

const ALICE: u64 = 1;
const BOB: u64 = 2;
const CAROL: u64 = 3;

fn limits() -> Config {
    Config::new(32, 64, 64)
}

fn record(name: &[u8], email: &[u8], document_hash: &[u8], revoked: bool) -> IdentityInfo {
    IdentityInfo {
        name: name.to_vec(),
        email: email.to_vec(),
        document_hash: document_hash.to_vec(),
        revoked,
    }
}

fn with_alice() -> Pallet {
    let mut pallet = Pallet::new(limits());
    let res = pallet.create_or_update_identity(
        ALICE,
        b"Alice".to_vec(),
        b"a@x.com".to_vec(),
        b"deadbeef".to_vec(),
    );
    assert_eq!(res, Ok(()));
    pallet
}

#[test]
fn new_registry_is_empty() {
    let pallet = Pallet::new(limits());
    assert_eq!(pallet.limits(), limits());
    assert_eq!(pallet.identities(ALICE), None);
    assert_eq!(pallet.verifications(BOB, ALICE), None);
    assert!(pallet.events().is_empty());
}

#[test]
fn end_to_end_create_verify_revoke() {
    let mut pallet = Pallet::new(limits());

    let res = pallet.create_or_update_identity(
        ALICE,
        b"Alice".to_vec(),
        b"a@x.com".to_vec(),
        b"deadbeef".to_vec(),
    );
    assert_eq!(res, Ok(()));
    assert_eq!(
        pallet.identities(ALICE),
        Some(record(b"Alice", b"a@x.com", b"deadbeef", false))
    );

    assert_eq!(pallet.verify_identity(BOB, ALICE), Ok(()));
    assert_eq!(pallet.verifications(BOB, ALICE), Some(true));
    assert_eq!(
        pallet.events().last(),
        Some(&Event::IdentityVerified(BOB, ALICE))
    );

    assert_eq!(
        pallet.verify_identity(BOB, ALICE),
        Err(Error::AlreadyVerified)
    );

    assert_eq!(pallet.revoke_identity(ALICE), Ok(()));
    assert_eq!(pallet.identities(ALICE).map(|info| info.revoked), Some(true));
    assert_eq!(pallet.verifications(BOB, ALICE), Some(true));

    assert_eq!(
        pallet.events(),
        &vec![
            Event::IdentityCreated(ALICE),
            Event::IdentityVerified(BOB, ALICE),
            Event::IdentityRevoked(ALICE),
        ]
    );
}

#[test]
fn create_round_trips_the_fields() {
    let mut pallet = Pallet::new(limits());
    let res = pallet.create_or_update_identity(
        CAROL,
        vec![0, 255, 7],
        vec![],
        vec![1, 2, 3, 4],
    );
    assert_eq!(res, Ok(()));
    let stored = pallet.identities(CAROL).unwrap();
    assert_eq!(stored.name, vec![0, 255, 7]);
    assert_eq!(stored.email, Vec::<u8>::new());
    assert_eq!(stored.document_hash, vec![1, 2, 3, 4]);
    assert!(!stored.revoked);
    assert_eq!(pallet.events(), &vec![Event::IdentityCreated(CAROL)]);
}

#[test]
fn create_touches_only_the_caller() {
    let mut pallet = with_alice();
    let res = pallet.create_or_update_identity(BOB, b"Bob".to_vec(), b"b@x.com".to_vec(), vec![9]);
    assert_eq!(res, Ok(()));
    assert_eq!(
        pallet.identities(ALICE),
        Some(record(b"Alice", b"a@x.com", b"deadbeef", false))
    );
    assert_eq!(
        pallet.identities(BOB),
        Some(record(b"Bob", b"b@x.com", &[9], false))
    );
    assert_eq!(pallet.identities(CAROL), None);
}

#[test]
fn update_replaces_the_whole_record() {
    let mut pallet = with_alice();
    let res = pallet.create_or_update_identity(ALICE, b"Al".to_vec(), vec![], b"cafe".to_vec());
    assert_eq!(res, Ok(()));
    assert_eq!(
        pallet.identities(ALICE),
        Some(record(b"Al", b"", b"cafe", false))
    );
    assert_eq!(
        pallet.events(),
        &vec![Event::IdentityCreated(ALICE), Event::IdentityCreated(ALICE)]
    );
}

#[test]
fn fields_at_the_limit_are_accepted() {
    let mut pallet = Pallet::new(Config::new(3, 4, 5));
    let res = pallet.create_or_update_identity(ALICE, vec![1; 3], vec![2; 4], vec![3; 5]);
    assert_eq!(res, Ok(()));
    assert_eq!(
        pallet.identities(ALICE),
        Some(record(&[1; 3], &[2; 4], &[3; 5], false))
    );
}

#[test]
fn name_over_the_limit_is_rejected() {
    let mut pallet = Pallet::new(Config::new(3, 4, 5));
    let res = pallet.create_or_update_identity(ALICE, vec![1; 4], vec![2; 4], vec![3; 5]);
    assert_eq!(res, Err(Error::NameTooLong));
    assert_eq!(pallet.identities(ALICE), None);
    assert!(pallet.events().is_empty());
}

#[test]
fn email_over_the_limit_is_rejected() {
    let mut pallet = Pallet::new(Config::new(3, 4, 5));
    let res = pallet.create_or_update_identity(ALICE, vec![1; 3], vec![2; 5], vec![3; 5]);
    assert_eq!(res, Err(Error::EmailTooLong));
    assert_eq!(pallet.identities(ALICE), None);
    assert!(pallet.events().is_empty());
}

#[test]
fn document_hash_over_the_limit_is_rejected() {
    let mut pallet = Pallet::new(Config::new(3, 4, 5));
    let res = pallet.create_or_update_identity(ALICE, vec![1; 3], vec![2; 4], vec![3; 6]);
    assert_eq!(res, Err(Error::DocHashTooLong));
    assert_eq!(pallet.identities(ALICE), None);
    assert!(pallet.events().is_empty());
}

#[test]
fn first_field_that_is_too_long_names_the_failure() {
    let mut pallet = Pallet::new(Config::new(3, 4, 5));
    let res = pallet.create_or_update_identity(ALICE, vec![1; 9], vec![2; 9], vec![3; 9]);
    assert_eq!(res, Err(Error::NameTooLong));
    let res = pallet.create_or_update_identity(ALICE, vec![1; 3], vec![2; 9], vec![3; 9]);
    assert_eq!(res, Err(Error::EmailTooLong));
    let res = pallet.create_or_update_identity(ALICE, vec![], vec![], vec![3; 9]);
    assert_eq!(res, Err(Error::DocHashTooLong));
    assert_eq!(pallet.identities(ALICE), None);
    assert!(pallet.events().is_empty());
}

#[test]
fn zero_limits_accept_only_empty_fields() {
    let mut pallet = Pallet::new(Config::new(0, 0, 0));
    let res = pallet.create_or_update_identity(ALICE, vec![1], vec![], vec![]);
    assert_eq!(res, Err(Error::NameTooLong));
    let res = pallet.create_or_update_identity(ALICE, vec![], vec![], vec![]);
    assert_eq!(res, Ok(()));
    assert_eq!(pallet.identities(ALICE), Some(record(b"", b"", b"", false)));
}

#[test]
fn rejected_update_leaves_the_earlier_record() {
    let mut pallet = with_alice();
    assert_eq!(pallet.verify_identity(BOB, ALICE), Ok(()));
    let events_before = pallet.events().clone();

    let res = pallet.create_or_update_identity(ALICE, vec![b'x'; 33], b"n@x.com".to_vec(), vec![]);
    assert_eq!(res, Err(Error::NameTooLong));

    assert_eq!(
        pallet.identities(ALICE),
        Some(record(b"Alice", b"a@x.com", b"deadbeef", false))
    );
    assert_eq!(pallet.verifications(BOB, ALICE), Some(true));
    assert_eq!(pallet.events(), &events_before);
}

#[test]
fn rejected_update_leaves_a_revoked_record_revoked() {
    let mut pallet = with_alice();
    assert_eq!(pallet.revoke_identity(ALICE), Ok(()));
    let res = pallet.create_or_update_identity(ALICE, vec![], vec![b'e'; 65], vec![]);
    assert_eq!(res, Err(Error::EmailTooLong));
    assert_eq!(
        pallet.identities(ALICE),
        Some(record(b"Alice", b"a@x.com", b"deadbeef", true))
    );
}

#[test]
fn second_verification_is_rejected_and_changes_nothing() {
    let mut pallet = with_alice();
    assert_eq!(pallet.verify_identity(BOB, ALICE), Ok(()));
    let flag_after_first = pallet.verifications(BOB, ALICE);
    let events_after_first = pallet.events().clone();

    assert_eq!(
        pallet.verify_identity(BOB, ALICE),
        Err(Error::AlreadyVerified)
    );

    assert_eq!(flag_after_first, Some(true));
    assert_eq!(pallet.verifications(BOB, ALICE), flag_after_first);
    assert_eq!(pallet.events(), &events_after_first);
}

#[test]
fn verification_needs_an_identity() {
    let mut pallet = with_alice();
    assert_eq!(
        pallet.verify_identity(ALICE, BOB),
        Err(Error::IdentityNotFound)
    );
    assert_eq!(pallet.verifications(ALICE, BOB), None);
    assert_eq!(pallet.identities(BOB), None);
    assert_eq!(pallet.events(), &vec![Event::IdentityCreated(ALICE)]);
}

#[test]
fn missing_identity_is_reported_before_an_earlier_verification() {
    let mut pallet = Pallet::new(limits());
    assert_eq!(
        pallet.verify_identity(BOB, ALICE),
        Err(Error::IdentityNotFound)
    );
    assert_eq!(
        pallet.verify_identity(BOB, ALICE),
        Err(Error::IdentityNotFound)
    );
    assert!(pallet.events().is_empty());
}

#[test]
fn verification_is_directed() {
    let mut pallet = with_alice();
    let res = pallet.create_or_update_identity(BOB, b"Bob".to_vec(), vec![], vec![]);
    assert_eq!(res, Ok(()));
    assert_eq!(pallet.verify_identity(BOB, ALICE), Ok(()));
    assert_eq!(pallet.verifications(BOB, ALICE), Some(true));
    assert_eq!(pallet.verifications(ALICE, BOB), None);
    assert_eq!(pallet.verify_identity(ALICE, BOB), Ok(()));
    assert_eq!(pallet.verifications(ALICE, BOB), Some(true));
}

#[test]
fn many_validators_may_verify_one_owner() {
    let mut pallet = with_alice();
    assert_eq!(pallet.verify_identity(BOB, ALICE), Ok(()));
    assert_eq!(pallet.verify_identity(CAROL, ALICE), Ok(()));
    assert_eq!(pallet.verifications(BOB, ALICE), Some(true));
    assert_eq!(pallet.verifications(CAROL, ALICE), Some(true));
    assert_eq!(
        pallet.events(),
        &vec![
            Event::IdentityCreated(ALICE),
            Event::IdentityVerified(BOB, ALICE),
            Event::IdentityVerified(CAROL, ALICE),
        ]
    );
}

#[test]
fn an_account_may_verify_itself() {
    let mut pallet = with_alice();
    assert_eq!(pallet.verify_identity(ALICE, ALICE), Ok(()));
    assert_eq!(pallet.verifications(ALICE, ALICE), Some(true));
    assert_eq!(
        pallet.verify_identity(ALICE, ALICE),
        Err(Error::AlreadyVerified)
    );
}

#[test]
fn a_revoked_identity_can_still_be_verified() {
    let mut pallet = with_alice();
    assert_eq!(pallet.revoke_identity(ALICE), Ok(()));
    assert_eq!(pallet.verify_identity(BOB, ALICE), Ok(()));
    assert_eq!(pallet.verifications(BOB, ALICE), Some(true));
}

#[test]
fn revocation_keeps_the_fields_and_the_verifications() {
    let mut pallet = with_alice();
    assert_eq!(pallet.verify_identity(BOB, ALICE), Ok(()));
    assert_eq!(pallet.revoke_identity(ALICE), Ok(()));
    assert_eq!(
        pallet.identities(ALICE),
        Some(record(b"Alice", b"a@x.com", b"deadbeef", true))
    );
    assert_eq!(pallet.verifications(BOB, ALICE), Some(true));
    assert_eq!(
        pallet.verify_identity(BOB, ALICE),
        Err(Error::AlreadyVerified)
    );
}

#[test]
fn revocation_touches_only_the_caller() {
    let mut pallet = with_alice();
    let res = pallet.create_or_update_identity(BOB, b"Bob".to_vec(), vec![], vec![]);
    assert_eq!(res, Ok(()));
    assert_eq!(pallet.revoke_identity(BOB), Ok(()));
    assert_eq!(
        pallet.identities(ALICE),
        Some(record(b"Alice", b"a@x.com", b"deadbeef", false))
    );
    assert_eq!(pallet.identities(BOB), Some(record(b"Bob", b"", b"", true)));
}

#[test]
fn revoking_twice_logs_twice_and_stays_revoked() {
    let mut pallet = with_alice();
    assert_eq!(pallet.revoke_identity(ALICE), Ok(()));
    let after_first = pallet.identities(ALICE);
    assert_eq!(pallet.revoke_identity(ALICE), Ok(()));
    assert_eq!(pallet.identities(ALICE), after_first);
    assert_eq!(
        pallet.events(),
        &vec![
            Event::IdentityCreated(ALICE),
            Event::IdentityRevoked(ALICE),
            Event::IdentityRevoked(ALICE),
        ]
    );
}

#[test]
fn revoking_without_identity_logs_and_stores_nothing() {
    let mut pallet = Pallet::new(limits());
    assert_eq!(pallet.revoke_identity(ALICE), Ok(()));
    assert_eq!(pallet.identities(ALICE), None);
    assert_eq!(pallet.events(), &vec![Event::IdentityRevoked(ALICE)]);
}

#[test]
fn submitting_again_clears_the_revocation() {
    let mut pallet = with_alice();
    assert_eq!(pallet.verify_identity(BOB, ALICE), Ok(()));
    assert_eq!(pallet.revoke_identity(ALICE), Ok(()));
    let res = pallet.create_or_update_identity(
        ALICE,
        b"Alice".to_vec(),
        b"a@x.com".to_vec(),
        b"deadbeef".to_vec(),
    );
    assert_eq!(res, Ok(()));
    assert_eq!(
        pallet.identities(ALICE),
        Some(record(b"Alice", b"a@x.com", b"deadbeef", false))
    );
    assert_eq!(pallet.verifications(BOB, ALICE), Some(true));
    assert_eq!(
        pallet.verify_identity(BOB, ALICE),
        Err(Error::AlreadyVerified)
    );
}

#[test]
fn registries_do_not_share_state() {
    let first = with_alice();
    let mut second = Pallet::new(Config::new(1, 1, 1));
    assert_eq!(second.identities(ALICE), None);
    assert_eq!(
        second.verify_identity(BOB, ALICE),
        Err(Error::IdentityNotFound)
    );
    assert_eq!(first.events().len(), 1);
    assert!(second.events().is_empty());
}
