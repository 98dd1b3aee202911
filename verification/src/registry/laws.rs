//! What holds of the registry in every state and over every run of requests,
//! proved of the operations in `model`, of which the operations of `Contract`
//! are the executable form.

use vstd::prelude::*;
use crate::registry::error::RegistryError;
use crate::registry::model::{id_space, Id, RegistryState};

verus! {

/// The identifiers below `n`.
pub open spec fn ids_below(n: nat) -> Set<Id> {
    Set::new(|id: Id| (id as nat) < n)
}

/// The answers of minting once for each of `callers`, in turn, and the state
/// that the last mint leaves.
pub open spec fn mint_each(s: RegistryState, callers: Seq<Seq<char>>) -> (
    RegistryState,
    Seq<Result<Id, RegistryError>>,
)
    decreases callers.len(),
{
    if callers.len() == 0 {
        (s, Seq::empty())
    } else {
        let (before, answers) = mint_each(s, callers.drop_last());
        let (after, answer) = before.mint(callers.last());
        (after, answers.push(answer))
    }
}

/// There are exactly `n` identifiers below `n`.
pub proof fn lemma_ids_below_count(n: nat)
    requires
        n <= id_space(),
    ensures
        ids_below(n).finite(),
        ids_below(n).len() == n,
    decreases n,
{
    if n == 0 {
        assert(ids_below(0) =~= Set::<Id>::empty());
    } else {
        let m = (n - 1) as nat;
        lemma_ids_below_count(m);
        assert(ids_below(n) =~= ids_below(m).insert(m as Id));
    }
}

/// A new registry is well formed.
pub proof fn law_genesis_is_well_formed(admin: Seq<char>)
    ensures
        RegistryState::genesis(admin).wf(),
        RegistryState::genesis(admin).owner_of(0) == Some(admin),
{
}

/// Every operation keeps the registry well formed, whether it is granted or
/// refused.
pub proof fn law_operations_keep_well_formed(
    s: RegistryState,
    caller: Seq<char>,
    id: Id,
    other: Seq<char>,
)
    requires
        s.wf(),
    ensures
        s.mint(caller).0.wf(),
        s.approve(caller, id, other).0.wf(),
        s.transfer(caller, id, other).0.wf(),
{
}

/// A refused operation leaves the registry as it was.
pub proof fn law_refusal_changes_nothing(
    s: RegistryState,
    caller: Seq<char>,
    id: Id,
    other: Seq<char>,
)
    ensures
        s.mint(caller).1 is Err ==> s.mint(caller).0 == s,
        s.approve(caller, id, other).1 is Err ==> s.approve(caller, id, other).0 == s,
        s.transfer(caller, id, other).1 is Err ==> s.transfer(caller, id, other).0 == s,
{
}

/// Approvals and transfers create no asset and remove none: the supply and the
/// set of identifiers in use stay what they were.
pub proof fn law_only_mint_adds_assets(
    s: RegistryState,
    caller: Seq<char>,
    id: Id,
    other: Seq<char>,
)
    ensures
        s.approve(caller, id, other).0.supply == s.supply,
        s.approve(caller, id, other).0.owners == s.owners,
        s.transfer(caller, id, other).0.supply == s.supply,
        s.transfer(caller, id, other).0.owners.dom() == s.owners.dom(),
{
    assert(s.transfer(caller, id, other).0.owners.dom() =~= s.owners.dom());
}

/// The supply counter is the number of ownership records, and the recorded
/// identifiers are those below it.
pub proof fn law_supply_counts_records(s: RegistryState)
    requires
        s.wf(),
    ensures
        s.owners.dom() == ids_below(s.supply),
        s.owners.dom().finite(),
        s.owners.dom().len() == s.supply,
{
    assert(s.owners.dom() =~= ids_below(s.supply));
    lemma_ids_below_count(s.supply);
}

/// A mint is granted exactly while identifiers are left. It then returns the
/// lowest identifier not yet in use, which until then named no asset, adds
/// one to the supply and touches no other record.
pub proof fn law_mint_issues_fresh_id(s: RegistryState, caller: Seq<char>)
    requires
        s.wf(),
    ensures
        s.mint(caller).1 is Ok <==> s.supply < id_space(),
        s.mint(caller).1 is Err ==> s.mint(caller).1 == Err::<Id, RegistryError>(
            RegistryError::CapacityExceeded,
        ),
        s.mint(caller).1 matches Ok(id) ==> {
            &&& id == s.supply
            &&& s.owner_of(id) is None
            &&& s.mint(caller).0.supply == s.supply + 1
            &&& forall|other: Id| other != id ==> s.mint(caller).0.owner_of(other) == s.owner_of(other)
            &&& s.mint(caller).0.delegates == s.delegates
        },
{
}

/// Over any run of mints: the answers are the identifiers from the first free
/// one upward, one by one with none left out, for as long as there are any;
/// from then on every answer is `CapacityExceeded`, and the supply stays.
pub proof fn law_mints_are_dense(s: RegistryState, callers: Seq<Seq<char>>)
    requires
        s.wf(),
    ensures
        mint_each(s, callers).0.wf(),
        mint_each(s, callers).1.len() == callers.len(),
        mint_each(s, callers).0.supply == if s.supply + callers.len() <= id_space() {
            s.supply + callers.len()
        } else {
            id_space()
        },
        forall|i: int|
            0 <= i < callers.len() ==> #[trigger] mint_each(s, callers).1[i] == if s.supply + i
                < id_space() {
                Ok::<Id, RegistryError>((s.supply + i) as Id)
            } else {
                Err::<Id, RegistryError>(RegistryError::CapacityExceeded)
            },
    decreases callers.len(),
{
    if callers.len() > 0 {
        law_mints_are_dense(s, callers.drop_last());
    }
}

/// No two mints of a run return the same identifier.
pub proof fn law_minted_ids_are_distinct(s: RegistryState, callers: Seq<Seq<char>>, i: int, j: int)
    requires
        s.wf(),
        0 <= i < j < callers.len(),
        mint_each(s, callers).1[i] is Ok,
        mint_each(s, callers).1[j] is Ok,
    ensures
        mint_each(s, callers).1[i] != mint_each(s, callers).1[j],
{
    law_mints_are_dense(s, callers);
}

/// In a new registry the mints return 1, 2, 3 and so on.
pub proof fn law_mints_count_from_one(admin: Seq<char>, callers: Seq<Seq<char>>, i: int)
    requires
        0 <= i < callers.len(),
        i + 1 < id_space(),
    ensures
        mint_each(RegistryState::genesis(admin), callers).1[i] == Ok::<Id, RegistryError>(
            (i + 1) as Id,
        ),
{
    law_mints_are_dense(RegistryState::genesis(admin), callers);
}

/// After a mint the caller owns the new asset.
pub proof fn law_mint_makes_caller_owner(s: RegistryState, caller: Seq<char>)
    ensures
        s.mint(caller).1 matches Ok(id) ==> s.mint(caller).0.owner_of(id) == Some(caller),
{
}

/// After a granted transfer the receiver owns the asset, and every other
/// asset has the owner it had.
pub proof fn law_transfer_makes_receiver_owner(
    s: RegistryState,
    caller: Seq<char>,
    id: Id,
    to: Seq<char>,
)
    requires
        s.transfer(caller, id, to).1 is Ok,
    ensures
        s.transfer(caller, id, to).0.owner_of(id) == Some(to),
        forall|other: Id| other != id ==> s.transfer(caller, id, to).0.owner_of(other) == s.owner_of(other),
        s.transfer(caller, id, to).1 == Ok::<Seq<char>, RegistryError>(s.owners[id]),
{
}

/// An approval does not outlast a change of owner. Once the owner has named a
/// delegate and either of the two has handed the asset on, the asset has no
/// delegate, and the former delegate can no longer move it, unless the asset
/// was handed to that very account.
pub proof fn law_transfer_clears_approval(
    s: RegistryState,
    owner: Seq<char>,
    id: Id,
    delegate: Seq<char>,
    mover: Seq<char>,
    new_owner: Seq<char>,
    anyone: Seq<char>,
)
    requires
        s.approve(owner, id, delegate).1 is Ok,
        mover == owner || mover == delegate,
        delegate != new_owner,
    ensures
        ({
            let approved = s.approve(owner, id, delegate).0;
            let moved = approved.transfer(mover, id, new_owner);
            &&& approved.delegate_of(id) == Some(delegate)
            &&& moved.1 is Ok
            &&& moved.0.delegate_of(id) is None
            &&& moved.0.transfer(delegate, id, anyone) == (
                moved.0,
                Err::<Seq<char>, RegistryError>(RegistryError::NotAuthorized),
            )
        }),
{
}

/// An approval asked for by anyone but the owner of an existing asset is
/// refused with `NotOwner`, and the registry stays as it was.
pub proof fn law_only_owner_approves(
    s: RegistryState,
    caller: Seq<char>,
    id: Id,
    delegate: Seq<char>,
)
    requires
        s.owner_of(id) is Some,
        s.owner_of(id) != Some(caller),
    ensures
        s.approve(caller, id, delegate) == (s, Err::<(), RegistryError>(RegistryError::NotOwner)),
{
}

/// A transfer of an existing asset asked for by an account that is neither
/// its owner nor its delegate is refused with `NotAuthorized`, and the
/// registry stays as it was.
pub proof fn law_only_owner_or_delegate_transfers(
    s: RegistryState,
    caller: Seq<char>,
    id: Id,
    to: Seq<char>,
)
    requires
        s.owner_of(id) is Some,
        s.owner_of(id) != Some(caller),
        s.delegate_of(id) != Some(caller),
    ensures
        s.transfer(caller, id, to) == (
            s,
            Err::<Seq<char>, RegistryError>(RegistryError::NotAuthorized),
        ),
{
}

/// A transfer is granted exactly to the owner and to the delegate of an
/// existing asset.
pub proof fn law_transfer_granted_iff_authorized(
    s: RegistryState,
    caller: Seq<char>,
    id: Id,
    to: Seq<char>,
)
    ensures
        s.transfer(caller, id, to).1 is Ok <==> s.owner_of(id) is Some && (s.owner_of(id) == Some(
            caller,
        ) || s.delegate_of(id) == Some(caller)),
{
}

/// An identifier that was never minted names no asset: it has no owner, and
/// approvals and transfers of it are refused with `UnknownAsset`.
pub proof fn law_unknown_asset(
    s: RegistryState,
    caller: Seq<char>,
    id: Id,
    other: Seq<char>,
)
    requires
        s.wf(),
        id >= s.supply,
    ensures
        !s.owners.contains_key(id),
        s.owner_of(id) is None,
        s.delegate_of(id) is None,
        s.approve(caller, id, other) == (s, Err::<(), RegistryError>(RegistryError::UnknownAsset)),
        s.transfer(caller, id, other) == (
            s,
            Err::<Seq<char>, RegistryError>(RegistryError::UnknownAsset),
        ),
{
}

/// Once the identifier space is used up, minting is refused and the supply
/// stays what it was.
pub proof fn law_exhausted_registry_refuses_mint(s: RegistryState, caller: Seq<char>)
    requires
        s.supply >= id_space(),
    ensures
        s.mint(caller) == (s, Err::<Id, RegistryError>(RegistryError::CapacityExceeded)),
{
}

} // verus!
