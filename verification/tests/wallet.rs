use tx_primitives::{apply_fee, TestWallet, Wallet};

#[test]
fn test_wallet_reports_its_confirmed_amount() {
    assert_eq!(TestWallet { confirmed: 0 }.balance(), 0);
    assert_eq!(TestWallet { confirmed: 1234 }.balance(), 1234);
    assert_eq!(TestWallet { confirmed: u64::MAX }.balance(), u64::MAX);
}

#[test]
fn balance_can_be_read_through_the_trait() {
    let wallet = TestWallet { confirmed: 77 };
    let any: &dyn Wallet = &wallet;
    assert_eq!(any.balance(), 77);
    assert_eq!(any.balance(), 77);
}

#[test]
fn apply_fee_subtracts() {
    let mut balance = 1000u64;
    apply_fee(&mut balance, 250);
    assert_eq!(balance, 750);
    apply_fee(&mut balance, 0);
    assert_eq!(balance, 750);
    apply_fee(&mut balance, 750);
    assert_eq!(balance, 0);
}

#[test]
fn apply_fee_stops_at_zero() {
    let mut balance = 100u64;
    apply_fee(&mut balance, 101);
    assert_eq!(balance, 0);
    let mut empty = 0u64;
    apply_fee(&mut empty, u64::MAX);
    assert_eq!(empty, 0);
    let mut full = u64::MAX;
    apply_fee(&mut full, u64::MAX);
    assert_eq!(full, 0);
    let mut other = u64::MAX;
    apply_fee(&mut other, 1);
    assert_eq!(other, u64::MAX - 1);
}
