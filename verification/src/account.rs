//! Caller identities.

use vstd::prelude::*;

verus! {

/// The identity of a caller, as the host hands it over. It is compared and
/// stored; nothing else is read from it.
pub type Account = String;

} // verus!
