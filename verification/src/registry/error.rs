use vstd::prelude::*;

verus! {

/// Why a registry operation was refused. A refused operation changes nothing.
#[derive(Clone, Copy, Debug, PartialEq, Eq, Structural)]
pub enum RegistryError {
    /// The identifier names no asset.
    UnknownAsset,
    /// An approval was asked for by somebody who does not own the asset.
    NotOwner,
    /// A transfer was asked for by somebody who is neither owner nor delegate.
    NotAuthorized,
    /// An ownership record already exists under the identifier.
    DuplicateId,
    /// Every identifier has been handed out.
    CapacityExceeded,
}

} // verus!
