use contract_lab::exchange::{my_operation, deposit};

#[test]
fn shares_follow_the_rate() {
    assert_eq!(deposit(1_000, 1_000_000, 1_000_000), Some(1_000));
    assert_eq!(deposit(1_000, 1_500_000, 1_000_000), Some(1_500));
    assert_eq!(deposit(3, 333_333, 1_000_000), Some(0));
    assert_eq!(deposit(7, 1, 2), Some(3));
    assert_eq!(deposit(0, u128::MAX, 1), Some(0));
    assert_eq!(deposit(5, 0, 9), Some(0));
}

#[test]
fn shares_at_the_limits() {
    assert_eq!(deposit(u64::MAX, 1, 1), Some(u64::MAX));
    assert_eq!(deposit(u64::MAX, 2, 1), None);
    assert_eq!(deposit(u64::MAX, 2, 2), Some(u64::MAX));
    assert_eq!(deposit(1, u128::MAX, u128::MAX), Some(1));
    assert_eq!(deposit(2, u128::MAX, u128::MAX), None);
    assert_eq!(deposit(1, u128::MAX, 1), None);
    assert_eq!(
        deposit(1, u128::MAX, 1u128 << 64),
        Some(u64::MAX)
    );
}

#[test]
fn zero_scalar_gives_nothing() {
    assert_eq!(deposit(10, 10, 0), None);
    assert_eq!(deposit(0, 0, 0), None);
}

#[test]
fn my_operation_adds() {
    assert_eq!(my_operation(1234, 1122), 2356);
    assert_eq!(my_operation(0, 0), 0);
    assert_eq!(my_operation(u64::MAX - 1, 1), u64::MAX);
}
