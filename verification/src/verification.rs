//! The verification relation: which validator has attested to which owner.

use vstd::prelude::*;
use std::collections::BTreeMap;
use crate::config::AccountId;

verus! {

/// A two-key map from (validator, owner) to the attestation flag.
///
/// A pair without an entry has not been attested. `insert` is the only way
/// in and writes `true`; nothing is ever taken out.
pub struct VerificationRelation {
    flags: BTreeMap<(AccountId, AccountId), bool>,
}

impl View for VerificationRelation {
    type V = Map<(AccountId, AccountId), bool>;

    closed spec fn view(&self) -> Map<(AccountId, AccountId), bool> {
        self.flags@
    }
}

impl VerificationRelation {
    /// The relation without any entry.
    pub fn new() -> (relation: VerificationRelation)
        ensures
            relation@ == Map::<(AccountId, AccountId), bool>::empty(),
    {
        VerificationRelation { flags: BTreeMap::new() }
    }

    /// Whether there is an entry for `validator` attesting to `owner`.
    pub fn contains_key(&self, validator: AccountId, owner: AccountId) -> (present: bool)
        ensures
            present == self@.contains_key((validator, owner)),
    {
        let pair = (validator, owner);
        self.flags.contains_key(&pair)
    }

    /// The flag stored for the pair, if there is an entry.
    pub fn get(&self, validator: AccountId, owner: AccountId) -> (flag: Option<bool>)
        ensures
            flag == (if self@.contains_key((validator, owner)) {
                Some(self@[(validator, owner)])
            } else {
                None
            }),
    {
        let pair = (validator, owner);
        match self.flags.get(&pair) {
            Some(flag) => Some(*flag),
            None => None,
        }
    }

    /// Records that `validator` attests to `owner`.
    ///
    /// The relation does not look for an earlier entry of the pair: a caller
    /// that must refuse a second attestation asks `contains_key` first.
    pub fn insert(&mut self, validator: AccountId, owner: AccountId)
        ensures
            final(self)@ == old(self)@.insert((validator, owner), true),
    {
        self.flags.insert((validator, owner), true);
    }
}

} // verus!
