use std::collections::HashMap;
use vstd::prelude::*;
use crate::registry::error::RegistryError;
use crate::account::Account;
use crate::registry::model::Id;
use crate::registry::ownership::{names, OwnershipStore};

verus! {

/// Who may move each asset on its owner's behalf: at most one delegate per
/// asset, and no entry where there is none.
pub struct ApprovalStore {
    delegates: HashMap<Id, Account>,
}

impl View for ApprovalStore {
    type V = Map<Id, Seq<char>>;

    closed spec fn view(&self) -> Map<Id, Seq<char>> {
        names(self.delegates@)
    }
}

impl ApprovalStore {
    /// A store without delegates.
    pub fn new() -> (s: Self)
        ensures
            s@ == Map::<Id, Seq<char>>::empty(),
    {
        let s = ApprovalStore { delegates: HashMap::new() };
        assert(s@ =~= Map::<Id, Seq<char>>::empty());
        s
    }

    /// The delegate of `id`, borrowed from the store.
    pub fn delegate_ref(&self, id: Id) -> (r: Option<&Account>)
        ensures
            match r {
                Some(delegate) => self@.contains_key(id) && delegate@ == self@[id],
                None => !self@.contains_key(id),
            },
    {
        self.delegates.get(&id)
    }

    /// The delegate of `id`, or `None` where the asset has none.
    pub fn delegate_of(&self, id: Id) -> (r: Option<Account>)
        ensures
            match r {
                Some(delegate) => self@.contains_key(id) && delegate@ == self@[id],
                None => !self@.contains_key(id),
            },
    {
        match self.delegates.get(&id) {
            Some(delegate) => Some(delegate.clone()),
            None => None,
        }
    }

    /// Makes `delegate` the one delegate of `id`, in place of any earlier one.
    /// Fails with `UnknownAsset`, and changes nothing, exactly when `owners`
    /// has no record of `id`.
    pub fn grant(&mut self, owners: &OwnershipStore, id: Id, delegate: Account) -> (r: Result<
        (),
        RegistryError,
    >)
        ensures
            !owners@.contains_key(id) ==> r == Err::<(), RegistryError>(RegistryError::UnknownAsset)
                && final(self)@ == old(self)@,
            owners@.contains_key(id) ==> r == Ok::<(), RegistryError>(()) && final(self)@ == old(self)@.insert(id, delegate@),
    {
        if !owners.contains(id) {
            return Err(RegistryError::UnknownAsset);
        }
        self.delegates.insert(id, delegate);
        assert(self@ =~= old(self)@.insert(id, delegate@));
        Ok(())
    }

    /// Removes the delegate of `id`, if there is one.
    pub fn clear(&mut self, id: Id)
        ensures
            final(self)@ == old(self)@.remove(id),
    {
        self.delegates.remove(&id);
        assert(self@ =~= old(self)@.remove(id));
    }
}

} // verus!
