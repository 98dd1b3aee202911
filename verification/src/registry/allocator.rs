use vstd::prelude::*;
use crate::registry::error::RegistryError;
use crate::registry::model::{id_space, Id};

verus! {

/// Hands out asset identifiers in increasing order, each exactly once.
///
/// The allocator counts what it has issued; the next identifier is that count.
/// It stops, rather than wrapping round, once every identifier is taken.
pub struct IdAllocator {
    issued: u16,
}

impl View for IdAllocator {
    type V = nat;

    /// How many identifiers have been issued so far.
    closed spec fn view(&self) -> nat {
        self.issued as nat
    }
}

impl IdAllocator {
    /// The allocator has not counted past the identifier space.
    pub open spec fn wf(&self) -> bool {
        self@ <= id_space()
    }

    /// An allocator that has issued nothing yet.
    pub fn new() -> (a: Self)
        ensures
            a.wf(),
            a@ == 0,
    {
        IdAllocator { issued: 0 }
    }

    /// The number of identifiers issued so far.
    pub fn issued(&self) -> (n: u16)
        ensures
            n == self@,
    {
        self.issued
    }

    /// Issues the next identifier, which is the number of identifiers issued
    /// before: greater than each of them. Fails with `CapacityExceeded`, and
    /// issues nothing, exactly when all identifiers are taken.
    pub fn allocate(&mut self) -> (r: Result<Id, RegistryError>)
        requires
            old(self).wf(),
        ensures
            final(self).wf(),
            old(self)@ < id_space() ==> r == Ok::<Id, RegistryError>(old(self)@ as Id) && final(self)@
                == old(self)@ + 1,
            old(self)@ >= id_space() ==> r == Err::<Id, RegistryError>(RegistryError::CapacityExceeded)
                && final(self)@ == old(self)@,
    {
        if self.issued > 255 {
            return Err(RegistryError::CapacityExceeded);
        }
        let id: Id = self.issued as Id;
        self.issued = self.issued + 1;
        Ok(id)
    }
}

} // verus!
