use contract_lab::vault::{deposit, withdraw, Settlement};

#[test]
fn first_deposit_mints_one_share_per_token() {
    assert_eq!(
        deposit(0, 0, 0, 500),
        Some(Settlement { moved: 500, total_supply: 500, holder_shares: 500 })
    );
    // Tokens that reached the vault some other way do not change that.
    assert_eq!(
        deposit(0, 0, 1_000, 500),
        Some(Settlement { moved: 500, total_supply: 500, holder_shares: 500 })
    );
}

#[test]
fn later_deposit_mints_in_proportion() {
    assert_eq!(
        deposit(1_000, 0, 2_000, 500),
        Some(Settlement { moved: 250, total_supply: 1_250, holder_shares: 250 })
    );
    assert_eq!(
        deposit(1_000, 100, 1_000, 1),
        Some(Settlement { moved: 1, total_supply: 1_001, holder_shares: 101 })
    );
    // Fractions of a share are dropped.
    assert_eq!(
        deposit(1, 1, 1_000_001, 1_000_000),
        Some(Settlement { moved: 0, total_supply: 1, holder_shares: 1 })
    );
    assert_eq!(
        deposit(3, 0, 2, 1),
        Some(Settlement { moved: 1, total_supply: 4, holder_shares: 1 })
    );
}

#[test]
fn deposit_that_cannot_be_settled() {
    // Shares exist but the vault holds nothing.
    assert_eq!(deposit(10, 0, 0, 5), None);
    // The scaled amount leaves the range.
    assert_eq!(deposit(2, 0, 1, u128::MAX), None);
    // The supply leaves the range.
    assert_eq!(deposit(u128::MAX, 0, u128::MAX, 1), None);
    assert_eq!(deposit(0, 1, 0, u128::MAX), None);
    assert_eq!(
        deposit(0, 0, 0, u128::MAX),
        Some(Settlement { moved: u128::MAX, total_supply: u128::MAX, holder_shares: u128::MAX })
    );
}

#[test]
fn withdrawal_pays_the_part_of_the_balance() {
    assert_eq!(
        withdraw(1_000, 400, 2_000, 100),
        Some(Settlement { moved: 200, total_supply: 900, holder_shares: 300 })
    );
    assert_eq!(
        withdraw(3, 3, 10, 1),
        Some(Settlement { moved: 3, total_supply: 2, holder_shares: 2 })
    );
    assert_eq!(
        withdraw(5, 5, 0, 5),
        Some(Settlement { moved: 0, total_supply: 0, holder_shares: 0 })
    );
    assert_eq!(
        withdraw(5, 2, 77, 0),
        Some(Settlement { moved: 0, total_supply: 5, holder_shares: 2 })
    );
}

#[test]
fn withdrawal_that_cannot_be_settled() {
    assert_eq!(withdraw(0, 0, 100, 0), None);
    assert_eq!(withdraw(10, 5, 100, 6), None);
    assert_eq!(withdraw(10, 20, 100, 11), None);
    assert_eq!(withdraw(u128::MAX, u128::MAX, 2, u128::MAX), None);
}

#[test]
fn deposit_then_withdraw_gives_the_tokens_back() {
    let after_deposit = deposit(0, 0, 0, 1_000).unwrap();
    let after_withdrawal = withdraw(
        after_deposit.total_supply,
        after_deposit.holder_shares,
        1_000,
        after_deposit.moved,
    )
    .unwrap();
    assert_eq!(after_withdrawal, Settlement { moved: 1_000, total_supply: 0, holder_shares: 0 });
}
