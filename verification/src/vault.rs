//! Share accounting of a vault: depositors get shares of what the vault
//! holds, and hand shares back for their part of it.

use vstd::prelude::*;

verus! {

/// What a deposit or a withdrawal settles: the shares or tokens that change
/// hands, and the share counts afterwards.
#[derive(Clone, Copy, Debug, PartialEq, Eq, Structural)]
pub struct Settlement {
    /// For a deposit the shares minted, for a withdrawal the tokens paid out.
    pub moved: u128,
    /// The shares that exist afterwards.
    pub total_supply: u128,
    /// The shares that the depositor holds afterwards.
    pub holder_shares: u128,
}

/// The shares minted for `amount` tokens: one for one into an empty vault,
/// else in proportion to the shares that exist per token held.
pub open spec fn shares_minted(amount: nat, total_supply: nat, balance: nat) -> nat {
    if total_supply == 0 {
        amount
    } else {
        (amount * total_supply) / balance
    }
}

/// Whether a deposit can be settled: the vault holds tokens unless it is
/// empty of shares, and no count leaves the range of `u128`.
pub open spec fn deposit_settles(
    total_supply: nat,
    holder_shares: nat,
    balance: nat,
    amount: nat,
) -> bool {
    &&& total_supply != 0 ==> balance != 0 && amount * total_supply <= u128::MAX
    &&& total_supply + shares_minted(amount, total_supply, balance) <= u128::MAX
    &&& holder_shares + shares_minted(amount, total_supply, balance) <= u128::MAX
}

/// The tokens paid out for `shares`: their part of `balance`.
pub open spec fn tokens_paid(shares: nat, total_supply: nat, balance: nat) -> nat {
    (shares * balance) / total_supply
}

/// Whether a withdrawal can be settled: the shares exist, the holder has
/// them, and no product leaves the range of `u128`.
pub open spec fn withdrawal_settles(
    total_supply: nat,
    holder_shares: nat,
    balance: nat,
    shares: nat,
) -> bool {
    &&& total_supply != 0
    &&& shares * balance <= u128::MAX
    &&& shares <= total_supply
    &&& shares <= holder_shares
}

/// Settles a deposit of `amount` tokens into a vault that holds `balance`
/// tokens against `total_supply` shares, of which the depositor has
/// `holder_shares`. `None` where it cannot be settled; nothing wraps.
pub fn deposit(total_supply: u128, holder_shares: u128, balance: u128, amount: u128) -> (r: Option<
    Settlement,
>)
    ensures
        r == if deposit_settles(
            total_supply as nat,
            holder_shares as nat,
            balance as nat,
            amount as nat,
        ) {
            Some(
                Settlement {
                    moved: shares_minted(amount as nat, total_supply as nat, balance as nat) as u128,
                    total_supply: (total_supply + shares_minted(
                        amount as nat,
                        total_supply as nat,
                        balance as nat,
                    )) as u128,
                    holder_shares: (holder_shares + shares_minted(
                        amount as nat,
                        total_supply as nat,
                        balance as nat,
                    )) as u128,
                },
            )
        } else {
            None
        },
{
    let shares: u128 = if total_supply == 0 {
        amount
    } else {
        if balance == 0 {
            return None;
        }
        match amount.checked_mul(total_supply) {
            Some(scaled) => scaled / balance,
            None => {
                return None;
            },
        }
    };
    match (total_supply.checked_add(shares), holder_shares.checked_add(shares)) {
        (Some(total_supply), Some(holder_shares)) => Some(
            Settlement { moved: shares, total_supply, holder_shares },
        ),
        _ => None,
    }
}

/// Settles a withdrawal of `shares` from a vault that holds `balance` tokens
/// against `total_supply` shares, of which the holder has `holder_shares`.
/// `None` where it cannot be settled; nothing wraps.
pub fn withdraw(total_supply: u128, holder_shares: u128, balance: u128, shares: u128) -> (r: Option<
    Settlement,
>)
    ensures
        r == if withdrawal_settles(
            total_supply as nat,
            holder_shares as nat,
            balance as nat,
            shares as nat,
        ) {
            Some(
                Settlement {
                    moved: tokens_paid(shares as nat, total_supply as nat, balance as nat) as u128,
                    total_supply: (total_supply - shares) as u128,
                    holder_shares: (holder_shares - shares) as u128,
                },
            )
        } else {
            None
        },
{
    if total_supply == 0 || shares > total_supply || shares > holder_shares {
        return None;
    }
    match shares.checked_mul(balance) {
        Some(scaled) => Some(
            Settlement {
                moved: scaled / total_supply,
                total_supply: total_supply - shares,
                holder_shares: holder_shares - shares,
            },
        ),
        None => None,
    }
}

} // verus!
