use vstd::prelude::*;
use crate::account::Account;
use crate::registry::allocator::IdAllocator;
use crate::registry::approval::ApprovalStore;
use crate::registry::error::RegistryError;
use crate::registry::model::{Id, RegistryState};
use crate::registry::ownership::OwnershipStore;

verus! {

/// The registry: ownership records, approvals and the supply counter, changed
/// only through the operations below. Each operation either applies in full
/// or fails with a typed error and leaves the registry as it was.
pub struct Contract {
    tokens: OwnershipStore,
    approvals: ApprovalStore,
    supply: IdAllocator,
}

impl View for Contract {
    type V = RegistryState;

    closed spec fn view(&self) -> RegistryState {
        RegistryState { owners: self.tokens@, delegates: self.approvals@, supply: self.supply@ }
    }
}

impl Contract {
    /// The invariants of the registry hold of this value.
    pub open spec fn wf(&self) -> bool {
        self@.wf()
    }

    /// A registry whose one asset, with identifier `0`, belongs to `admin`.
    pub fn init(admin: Account) -> (c: Self)
        ensures
            c.wf(),
            c@ == RegistryState::genesis(admin@),
    {
        let mut supply = IdAllocator::new();
        let mut tokens = OwnershipStore::new();
        if let Ok(id) = supply.allocate() {
            let _ = tokens.record_new(id, admin);
        }
        Contract { tokens, approvals: ApprovalStore::new(), supply }
    }

    /// The owner of `id`, or `None` where no such asset was minted.
    pub fn owner_of(&self, id: Id) -> (r: Option<Account>)
        ensures
            match r {
                Some(owner) => self@.owner_of(id) == Some(owner@),
                None => self@.owner_of(id) is None,
            },
    {
        self.tokens.owner_of(id)
    }

    /// The delegate of `id`, or `None` where the asset has none.
    pub fn delegate_of(&self, id: Id) -> (r: Option<Account>)
        ensures
            match r {
                Some(delegate) => self@.delegate_of(id) == Some(delegate@),
                None => self@.delegate_of(id) is None,
            },
    {
        self.approvals.delegate_of(id)
    }

    /// The number of assets in the registry.
    pub fn total_supply(&self) -> (n: u16)
        ensures
            n == self@.supply,
    {
        self.supply.issued()
    }

    /// Creates an asset owned by `caller` and returns its identifier: the
    /// lowest one not yet in use. Refused with `CapacityExceeded` once every
    /// identifier is in use.
    pub fn mint(&mut self, caller: Account) -> (r: Result<Id, RegistryError>)
        requires
            old(self).wf(),
        ensures
            final(self).wf(),
            final(self)@ == old(self)@.mint(caller@).0,
            r == old(self)@.mint(caller@).1,
    {
        match self.supply.allocate() {
            Ok(id) => match self.tokens.record_new(id, caller) {
                Ok(()) => Ok(id),
                Err(e) => Err(e),
            },
            Err(e) => Err(e),
        }
    }

    /// Lets `delegate`, and nobody else besides the owner, transfer `id`.
    /// Refused with `UnknownAsset` where `id` was never minted, and with
    /// `NotOwner` where `caller` does not own it.
    pub fn approve(&mut self, caller: &Account, id: Id, delegate: Account) -> (r: Result<
        (),
        RegistryError,
    >)
        requires
            old(self).wf(),
        ensures
            final(self).wf(),
            final(self)@ == old(self)@.approve(caller@, id, delegate@).0,
            r == old(self)@.approve(caller@, id, delegate@).1,
    {
        match self.tokens.owner_ref(id) {
            None => Err(RegistryError::UnknownAsset),
            Some(owner) => {
                if *owner == *caller {
                    self.approvals.grant(&self.tokens, id, delegate)
                } else {
                    Err(RegistryError::NotOwner)
                }
            },
        }
    }

    /// Hands `id` to `to` and returns the previous owner; afterwards the asset
    /// has no delegate. Refused with `UnknownAsset` where `id` was never
    /// minted, and with `NotAuthorized` where `caller` is neither its owner
    /// nor its delegate. The decision is taken before anything changes.
    pub fn transfer(&mut self, caller: &Account, id: Id, to: Account) -> (r: Result<
        Account,
        RegistryError,
    >)
        requires
            old(self).wf(),
        ensures
            final(self).wf(),
            final(self)@ == old(self)@.transfer(caller@, id, to@).0,
            match r {
                Ok(previous) => old(self)@.transfer(caller@, id, to@).1 == Ok::<
                    Seq<char>,
                    RegistryError,
                >(previous@),
                Err(e) => old(self)@.transfer(caller@, id, to@).1 == Err::<Seq<char>, RegistryError>(
                    e,
                ),
            },
    {
        let allowed = match self.tokens.owner_ref(id) {
            None => {
                return Err(RegistryError::UnknownAsset);
            },
            Some(owner) => {
                if *owner == *caller {
                    true
                } else {
                    match self.approvals.delegate_ref(id) {
                        Some(delegate) => *delegate == *caller,
                        None => false,
                    }
                }
            },
        };
        if !allowed {
            return Err(RegistryError::NotAuthorized);
        }
        match self.tokens.reassign(id, to) {
            Ok(previous) => {
                self.approvals.clear(id);
                Ok(previous)
            },
            Err(e) => Err(e),
        }
    }
}

impl Default for Contract {
    /// The registry whose first asset belongs to the account `admin.near`.
    fn default() -> (c: Self)
        ensures
            c.wf(),
            c@ == RegistryState::genesis("admin.near"@),
    {
        Contract::init("admin.near".to_owned())
    }
}

} // verus!
