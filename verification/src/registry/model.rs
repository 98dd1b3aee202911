use vstd::prelude::*;
use crate::registry::error::RegistryError;

verus! {

/// An asset identifier.
pub type Id = u8;

/// The number of identifiers there are: `0` up to `Id::MAX`.
pub open spec fn id_space() -> nat {
    256
}

/// The registry as a mathematical value: who owns what, who may move what on
/// the owner's behalf, and how many assets there are.
///
/// Each operation is a function from a state and a request to the next state
/// and an answer. A refused request leaves the state as it was.
#[verifier::ext_equal]
pub struct RegistryState {
    pub owners: Map<Id, Seq<char>>,
    pub delegates: Map<Id, Seq<char>>,
    pub supply: nat,
}

impl RegistryState {
    /// The registry right after its creation: asset `0` exists and belongs to `admin`.
    pub open spec fn genesis(admin: Seq<char>) -> Self {
        RegistryState {
            owners: Map::empty().insert(0u8, admin),
            delegates: Map::empty(),
            supply: 1,
        }
    }

    /// The identifiers in use are exactly those below `supply`, asset `0`
    /// exists, and only existing assets have a delegate.
    pub open spec fn wf(self) -> bool {
        &&& 1 <= self.supply <= id_space()
        &&& forall|id: Id| #[trigger] self.owners.contains_key(id) <==> (id as nat) < self.supply
        &&& forall|id: Id| #[trigger]
            self.delegates.contains_key(id) ==> self.owners.contains_key(id)
    }

    /// The owner of `id`, where the asset exists.
    pub open spec fn owner_of(self, id: Id) -> Option<Seq<char>> {
        if self.owners.contains_key(id) {
            Some(self.owners[id])
        } else {
            None
        }
    }

    /// The delegate of `id`, where it has one.
    pub open spec fn delegate_of(self, id: Id) -> Option<Seq<char>> {
        if self.delegates.contains_key(id) {
            Some(self.delegates[id])
        } else {
            None
        }
    }

    /// Whether `caller` may move `id`: as its owner, or as its delegate.
    pub open spec fn may_transfer(self, caller: Seq<char>, id: Id) -> bool {
        self.owner_of(id) == Some(caller) || self.delegate_of(id) == Some(caller)
    }

    /// Minting: the new asset gets the lowest identifier not yet in use and
    /// belongs to `caller`. Refused once the identifier space is used up.
    pub open spec fn mint(self, caller: Seq<char>) -> (RegistryState, Result<Id, RegistryError>) {
        if self.supply >= id_space() {
            (self, Err(RegistryError::CapacityExceeded))
        } else {
            (
                RegistryState {
                    owners: self.owners.insert(self.supply as Id, caller),
                    delegates: self.delegates,
                    supply: self.supply + 1,
                },
                Ok(self.supply as Id),
            )
        }
    }

    /// Approving: the owner of `id` names `delegate` as its one delegate.
    pub open spec fn approve(self, caller: Seq<char>, id: Id, delegate: Seq<char>) -> (
        RegistryState,
        Result<(), RegistryError>,
    ) {
        if !self.owners.contains_key(id) {
            (self, Err(RegistryError::UnknownAsset))
        } else if self.owners[id] != caller {
            (self, Err(RegistryError::NotOwner))
        } else {
            (
                RegistryState {
                    owners: self.owners,
                    delegates: self.delegates.insert(id, delegate),
                    supply: self.supply,
                },
                Ok(()),
            )
        }
    }

    /// Transferring: the owner of `id`, or its delegate, hands it to `to`.
    /// The asset then has no delegate. The answer names the previous owner.
    pub open spec fn transfer(self, caller: Seq<char>, id: Id, to: Seq<char>) -> (
        RegistryState,
        Result<Seq<char>, RegistryError>,
    ) {
        if !self.owners.contains_key(id) {
            (self, Err(RegistryError::UnknownAsset))
        } else if !self.may_transfer(caller, id) {
            (self, Err(RegistryError::NotAuthorized))
        } else {
            (
                RegistryState {
                    owners: self.owners.insert(id, to),
                    delegates: self.delegates.remove(id),
                    supply: self.supply,
                },
                Ok(self.owners[id]),
            )
        }
    }
}

} // verus!
