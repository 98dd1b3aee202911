//! An asset registry: every asset has exactly one owner and at most one
//! delegate, identifiers are handed out densely and never reused.

pub mod allocator;
pub mod approval;
pub mod contract;
pub mod error;
pub mod laws;
pub mod model;
pub mod ownership;

pub use allocator::IdAllocator;
pub use approval::ApprovalStore;
pub use contract::Contract;
pub use error::RegistryError;
pub use crate::account::Account;
pub use model::{Id, RegistryState};
pub use ownership::OwnershipStore;
