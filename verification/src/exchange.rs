//! Shares minted against deposited collateral.

use vstd::prelude::*;

verus! {

/// The shares that a deposit of `collateral` is worth at the exchange rate
/// `rate`, where `scalar` is the rate of one share for one unit of
/// collateral. Fractions of a share are dropped.
pub open spec fn shares_for(collateral: nat, rate: nat, scalar: nat) -> nat {
    (collateral * rate) / scalar
}

/// Whether the shares for such a deposit can be computed: the scalar is not
/// zero, the scaled collateral fits in `u128` and the shares fit in `u64`.
pub open spec fn computable(collateral: nat, rate: nat, scalar: nat) -> bool {
    &&& scalar != 0
    &&& collateral * rate <= u128::MAX
    &&& shares_for(collateral, rate, scalar) <= u64::MAX
}

/// The shares to mint for a deposit of `collateral`, or `None` where they
/// cannot be computed. Nothing wraps and nothing is cut off.
pub fn deposit(collateral: u64, rate: u128, scalar: u128) -> (shares: Option<u64>)
    ensures
        shares == if computable(collateral as nat, rate as nat, scalar as nat) {
            Some(shares_for(collateral as nat, rate as nat, scalar as nat) as u64)
        } else {
            None
        },
{
    if scalar == 0 {
        return None;
    }
    match (collateral as u128).checked_mul(rate) {
        None => None,
        Some(scaled) => {
            let amount: u128 = scaled / scalar;
            if amount > u64::MAX as u128 {
                None
            } else {
                Some(amount as u64)
            }
        },
    }
}

/// The sum of two amounts.
pub fn my_operation(a: u64, b: u64) -> (sum: u64)
    requires
        a + b <= u64::MAX,
    ensures
        sum == a + b,
{
    a + b
}

} // verus!
