//! The identity store: one record per account.

use vstd::prelude::*;
use std::collections::BTreeMap;
use crate::config::AccountId;
use crate::identity::{IdentityInfo, IdentityView};

verus! {

/// Maps each account to its identity record, if it has one.
///
/// The store validates nothing: what may be written is decided by the layer
/// above it.
pub struct IdentityStore {
    records: BTreeMap<AccountId, IdentityInfo>,
}

impl View for IdentityStore {
    type V = Map<AccountId, IdentityView>;

    closed spec fn view(&self) -> Map<AccountId, IdentityView> {
        self.records@.map_values(|info: IdentityInfo| info@)
    }
}

impl IdentityStore {
    /// The store without any record.
    pub fn new() -> (store: IdentityStore)
        ensures
            store@ == Map::<AccountId, IdentityView>::empty(),
    {
        let store = IdentityStore { records: BTreeMap::new() };
        assert(store@ =~= Map::<AccountId, IdentityView>::empty());
        store
    }

    /// Whether `who` has a record.
    pub fn contains_key(&self, who: AccountId) -> (present: bool)
        ensures
            present == self@.contains_key(who),
    {
        self.records.contains_key(&who)
    }

    /// The record of `who`, if there is one.
    pub fn get(&self, who: AccountId) -> (found: Option<&IdentityInfo>)
        ensures
            found is Some <==> self@.contains_key(who),
            found matches Some(info) ==> info@ == self@[who],
    {
        self.records.get(&who)
    }

    /// Stores `info` as the record of `who`, replacing any earlier record.
    pub fn set(&mut self, who: AccountId, info: IdentityInfo)
        ensures
            final(self)@ == old(self)@.insert(who, info@),
    {
        self.records.insert(who, info);
        assert(self@ =~= old(self)@.insert(who, info@));
    }

    /// Replaces the record of `who` by what `change` makes of it. Without a
    /// record nothing happens, and `change` is not called.
    pub fn mutate<F: FnOnce(IdentityInfo) -> IdentityInfo>(&mut self, who: AccountId, change: F)
        requires
            forall|info: IdentityInfo|
                old(self)@.contains_key(who) && info@ == old(self)@[who] ==> change.requires(
                    (info,),
                ),
        ensures
            !old(self)@.contains_key(who) ==> final(self)@ == old(self)@,
            old(self)@.contains_key(who) ==> exists|before: IdentityInfo, after: IdentityInfo|
                {
                    &&& before@ == old(self)@[who]
                    &&& change.ensures((before,), after)
                    &&& final(self)@ == old(self)@.insert(who, after@)
                },
    {
        match self.records.remove(&who) {
            Some(before) => {
                let after = change(before);
                self.records.insert(who, after);
                assert(self@ =~= old(self)@.insert(who, after@));
            },
            None => {
                assert(self@ =~= old(self)@);
            },
        }
    }
}

} // verus!
