use std::collections::HashMap;
use vstd::prelude::*;
use crate::registry::error::RegistryError;
use crate::account::Account;
use crate::registry::model::Id;

verus! {

/// The names held in a table of accounts, identifier by identifier.
pub open spec fn names(table: Map<Id, Account>) -> Map<Id, Seq<char>> {
    Map::new(|id: Id| table.contains_key(id), |id: Id| table[id]@)
}

/// Who owns each asset: one record per asset, never removed.
pub struct OwnershipStore {
    owners: HashMap<Id, Account>,
}

impl View for OwnershipStore {
    type V = Map<Id, Seq<char>>;

    closed spec fn view(&self) -> Map<Id, Seq<char>> {
        names(self.owners@)
    }
}

impl OwnershipStore {
    /// A store without records.
    pub fn new() -> (s: Self)
        ensures
            s@ == Map::<Id, Seq<char>>::empty(),
    {
        let s = OwnershipStore { owners: HashMap::new() };
        assert(s@ =~= Map::<Id, Seq<char>>::empty());
        s
    }

    /// Whether `id` has an ownership record.
    pub fn contains(&self, id: Id) -> (b: bool)
        ensures
            b == self@.contains_key(id),
    {
        self.owners.contains_key(&id)
    }

    /// The owner of `id`, borrowed from the store.
    pub fn owner_ref(&self, id: Id) -> (r: Option<&Account>)
        ensures
            match r {
                Some(owner) => self@.contains_key(id) && owner@ == self@[id],
                None => !self@.contains_key(id),
            },
    {
        self.owners.get(&id)
    }

    /// The owner of `id`, or `None` where there is no such asset.
    pub fn owner_of(&self, id: Id) -> (r: Option<Account>)
        ensures
            match r {
                Some(owner) => self@.contains_key(id) && owner@ == self@[id],
                None => !self@.contains_key(id),
            },
    {
        match self.owners.get(&id) {
            Some(owner) => Some(owner.clone()),
            None => None,
        }
    }

    /// Records `owner` as the owner of the fresh asset `id`. Fails with
    /// `DuplicateId`, and changes nothing, exactly when `id` has a record.
    pub fn record_new(&mut self, id: Id, owner: Account) -> (r: Result<(), RegistryError>)
        ensures
            old(self)@.contains_key(id) ==> r == Err::<(), RegistryError>(RegistryError::DuplicateId)
                && final(self)@ == old(self)@,
            !old(self)@.contains_key(id) ==> r == Ok::<(), RegistryError>(()) && final(self)@
                == old(self)@.insert(id, owner@),
    {
        if self.owners.contains_key(&id) {
            return Err(RegistryError::DuplicateId);
        }
        self.owners.insert(id, owner);
        assert(self@ =~= old(self)@.insert(id, owner@));
        Ok(())
    }

    /// Hands the asset `id` to `new_owner` and returns who owned it before.
    /// Fails with `UnknownAsset`, and changes nothing, exactly when `id` has
    /// no record.
    pub fn reassign(&mut self, id: Id, new_owner: Account) -> (r: Result<Account, RegistryError>)
        ensures
            match r {
                Ok(previous) => old(self)@.contains_key(id) && previous@ == old(self)@[id]
                    && final(self)@ == old(self)@.insert(id, new_owner@),
                Err(e) => !old(self)@.contains_key(id) && e == RegistryError::UnknownAsset
                    && final(self)@ == old(self)@,
            },
    {
        if !self.owners.contains_key(&id) {
            return Err(RegistryError::UnknownAsset);
        }
        match self.owners.insert(id, new_owner) {
            Some(previous) => {
                assert(self@ =~= old(self)@.insert(id, new_owner@));
                Ok(previous)
            },
            None => Err(RegistryError::UnknownAsset),
        }
    }
}

} // verus!
