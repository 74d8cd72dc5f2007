use payment_program::{Authorizations, Error, Ledger, PaymentContract};

fn auths_for(principals: &[u64]) -> Authorizations {
    let mut auths = Authorizations::new();
    for p in principals {
        auths.grant(*p);
    }
    auths
}

#[test]
fn test_payment_with_fee() {
    let admin: u64 = 1;
    let user_a: u64 = 2;
    let user_b: u64 = 3;
    let contract_id: u64 = 100;

    let mut contract = PaymentContract::new(contract_id);
    assert!(contract.initialize(admin).is_ok());

    let mut token = Ledger::new();
    let auths = auths_for(&[admin, user_a]);

    assert!(token.mint(user_a, 1_000_000).is_ok());
    assert_eq!(token.balance_of(user_a), 1_000_000);

    let payment_amount: i128 = 100_000;
    assert!(contract.pay(&mut token, user_a, user_b, payment_amount, &auths).is_ok());

    assert_eq!(token.balance_of(user_a), 899_990);
    assert_eq!(token.balance_of(user_b), 100_000);
    assert_eq!(token.balance_of(contract_id), 10);

    assert!(contract.withdraw_fees(&mut token, admin, &auths).is_ok());

    assert_eq!(token.balance_of(contract_id), 0);
    assert_eq!(token.balance_of(admin), 10);
}

#[test]
fn test_double_initialization() {
    let admin: u64 = 1;
    let mut contract = PaymentContract::new(100);

    assert!(contract.initialize(admin).is_ok());
    assert_eq!(contract.initialize(admin), Err(Error::AlreadyInitialized));
    // A different admin is refused just the same, and the record keeps its value.
    assert_eq!(contract.initialize(7), Err(Error::AlreadyInitialized));
    assert_eq!(contract.get_admin(), Ok(admin));
}

#[test]
fn small_payment_carries_no_fee() {
    let user_a: u64 = 2;
    let user_b: u64 = 3;
    let contract_id: u64 = 100;

    let contract = PaymentContract::new(contract_id);
    let mut token = Ledger::new();
    let auths = auths_for(&[user_a]);
    assert!(token.mint(user_a, 1_000).is_ok());

    assert!(contract.pay(&mut token, user_a, user_b, 50, &auths).is_ok());

    assert_eq!(token.balance_of(user_a), 950);
    assert_eq!(token.balance_of(user_b), 50);
    assert_eq!(token.balance_of(contract_id), 0);
}

#[test]
fn fee_is_floor_of_one_ten_thousandth() {
    assert_eq!(payment_program::payment_fee(1), Ok(0));
    assert_eq!(payment_program::payment_fee(9_999), Ok(0));
    assert_eq!(payment_program::payment_fee(10_000), Ok(1));
    assert_eq!(payment_program::payment_fee(19_999), Ok(1));
    assert_eq!(payment_program::payment_fee(123_456), Ok(12));
    assert_eq!(payment_program::payment_fee(0), Err(Error::InvalidAmount));
    assert_eq!(payment_program::payment_fee(-1), Err(Error::InvalidAmount));
}

#[test]
fn pay_rejects_nonpositive_amounts() {
    let user_a: u64 = 2;
    let user_b: u64 = 3;
    let contract = PaymentContract::new(100);
    let mut token = Ledger::new();
    let auths = auths_for(&[user_a]);
    assert!(token.mint(user_a, 500).is_ok());

    assert_eq!(contract.pay(&mut token, user_a, user_b, 0, &auths), Err(Error::InvalidAmount));
    assert_eq!(contract.pay(&mut token, user_a, user_b, -40, &auths), Err(Error::InvalidAmount));

    // Zero balance changes.
    assert_eq!(token.balance_of(user_a), 500);
    assert_eq!(token.balance_of(user_b), 0);
    assert_eq!(token.balance_of(100), 0);
}

#[test]
fn pay_requires_source_authorization() {
    let user_a: u64 = 2;
    let user_b: u64 = 3;
    let contract = PaymentContract::new(100);
    let mut token = Ledger::new();
    assert!(token.mint(user_a, 500).is_ok());

    // The destination's authorization does not stand in for the source's.
    let auths = auths_for(&[user_b]);
    assert_eq!(contract.pay(&mut token, user_a, user_b, 50, &auths), Err(Error::Unauthorized));
    assert_eq!(token.balance_of(user_a), 500);
    assert_eq!(token.balance_of(user_b), 0);
}

#[test]
fn pay_needs_amount_and_fee_covered() {
    let user_a: u64 = 2;
    let user_b: u64 = 3;
    let contract_id: u64 = 100;
    let contract = PaymentContract::new(contract_id);
    let mut token = Ledger::new();
    let auths = auths_for(&[user_a]);

    // Exactly the amount, but not the fee on top of it.
    assert!(token.mint(user_a, 20_000).is_ok());
    assert_eq!(
        contract.pay(&mut token, user_a, user_b, 20_000, &auths),
        Err(Error::InsufficientBalance)
    );
    // The fee collected before the refused transfer was given back.
    assert_eq!(token.balance_of(user_a), 20_000);
    assert_eq!(token.balance_of(user_b), 0);
    assert_eq!(token.balance_of(contract_id), 0);

    // Amount plus fee exactly covered: 19,999 plus a fee of 1.
    assert!(contract.pay(&mut token, user_a, user_b, 19_999, &auths).is_ok());
    assert_eq!(token.balance_of(user_a), 0);
    assert_eq!(token.balance_of(user_b), 19_999);
    assert_eq!(token.balance_of(contract_id), 1);
}

#[test]
fn withdraw_before_initialize_is_refused() {
    let admin: u64 = 1;
    let contract = PaymentContract::new(100);
    let mut token = Ledger::new();
    let auths = auths_for(&[admin]);

    assert_eq!(contract.withdraw_fees(&mut token, admin, &auths), Err(Error::Uninitialized));
    assert_eq!(contract.get_admin(), Err(Error::Uninitialized));
}

#[test]
fn withdraw_needs_admin_authorization() {
    let admin: u64 = 1;
    let intruder: u64 = 9;
    let contract_id: u64 = 100;
    let mut contract = PaymentContract::new(contract_id);
    assert!(contract.initialize(admin).is_ok());

    let mut token = Ledger::new();
    assert!(token.mint(contract_id, 77).is_ok());

    // Only the intruder authorized the call: the stored admin did not.
    let auths = auths_for(&[intruder]);
    assert_eq!(contract.withdraw_fees(&mut token, intruder, &auths), Err(Error::Unauthorized));
    assert_eq!(token.balance_of(contract_id), 77);
    assert_eq!(token.balance_of(intruder), 0);
}

#[test]
fn withdraw_with_zero_balance_is_a_noop_success() {
    let admin: u64 = 1;
    let contract_id: u64 = 100;
    let mut contract = PaymentContract::new(contract_id);
    assert!(contract.initialize(admin).is_ok());

    let mut token = Ledger::new();
    let auths = auths_for(&[admin]);
    assert!(contract.withdraw_fees(&mut token, admin, &auths).is_ok());
    assert_eq!(token.balance_of(contract_id), 0);
    assert_eq!(token.balance_of(admin), 0);
}

#[test]
fn get_admin_returns_the_registered_admin() {
    let admin: u64 = 42;
    let mut contract = PaymentContract::new(100);
    assert_eq!(contract.get_admin(), Err(Error::Uninitialized));
    assert!(contract.initialize(admin).is_ok());
    assert_eq!(contract.get_admin(), Ok(admin));
}

#[test]
fn payments_work_without_initialization() {
    let user_a: u64 = 2;
    let user_b: u64 = 3;
    let contract = PaymentContract::new(100);
    let mut token = Ledger::new();
    let auths = auths_for(&[user_a]);
    assert!(token.mint(user_a, 30_000).is_ok());

    assert!(contract.pay(&mut token, user_a, user_b, 10_000, &auths).is_ok());
    assert_eq!(token.balance_of(user_a), 19_999);
    assert_eq!(token.balance_of(user_b), 10_000);
    assert_eq!(token.balance_of(100), 1);
}

#[test]
fn ledger_transfer_moves_exact_amounts() {
    let mut token = Ledger::new();
    assert!(token.mint(5, 1_000).is_ok());

    assert!(token.transfer(5, 6, 400).is_ok());
    assert_eq!(token.balance_of(5), 600);
    assert_eq!(token.balance_of(6), 400);

    // Transfer to oneself succeeds and changes nothing.
    assert!(token.transfer(5, 5, 600).is_ok());
    assert_eq!(token.balance_of(5), 600);

    assert_eq!(token.transfer(5, 6, 601), Err(Error::InsufficientBalance));
    assert_eq!(token.transfer(5, 6, -1), Err(Error::InvalidAmount));
    assert_eq!(token.balance_of(5), 600);
    assert_eq!(token.balance_of(6), 400);
}

#[test]
fn credits_beyond_the_range_are_refused() {
    let mut token = Ledger::new();
    assert!(token.mint(7, i128::MAX).is_ok());
    assert_eq!(token.mint(7, 1), Err(Error::BalanceOverflow));
    assert!(token.mint(8, 1).is_ok());
    assert_eq!(token.transfer(8, 7, 1), Err(Error::BalanceOverflow));
    assert_eq!(token.balance_of(7), i128::MAX);
    assert_eq!(token.balance_of(8), 1);
    assert_eq!(token.mint(7, -3), Err(Error::InvalidAmount));
}

#[test]
fn withdrawal_amount_sweeps_all_or_nothing() {
    assert_eq!(payment_program::withdrawal_amount(0), None);
    assert_eq!(payment_program::withdrawal_amount(-5), None);
    assert_eq!(payment_program::withdrawal_amount(123), Some(123));
}

#[test]
fn authorizations_record_exactly_what_was_granted() {
    let mut auths = Authorizations::new();
    assert!(!auths.allows(4));
    auths.grant(4);
    auths.grant(9);
    assert!(auths.allows(4));
    assert!(auths.allows(9));
    assert!(!auths.allows(5));
}
