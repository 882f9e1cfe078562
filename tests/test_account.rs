use transactions::account::{Account, NormalAccountState};
use transactions::errors::TransactionError;
use transactions::fixed_precision::FixedPrecision4;
use transactions::transaction::{Transaction, TransactionState};

fn fp(number: f64) -> FixedPrecision4 {
    FixedPrecision4::from_scaled((number * 10000.0) as isize)
}

#[test]
fn test_normal_account_state_deposit() {
    let mut state = NormalAccountState::default();

    // first deposit
    state.deposit(5, fp(32.0)).unwrap();
    assert_eq!(state.funds().available_funds, fp(32.0));
    assert_eq!(state.transaction(5), Some(&Transaction::new(fp(32.0))));

    // deposit with an id that is already taken
    match state.deposit(5, fp(15.0)) {
        Err(TransactionError::TransactionExists) => (),
        _ => assert!(false),
    }
    assert_eq!(state.transaction(5), Some(&Transaction::new(fp(32.0))));

    // a second deposit adds up
    state.deposit(17, fp(13.0)).unwrap();
    assert_eq!(state.funds().available_funds, fp(45.0));
    assert_eq!(state.transaction(5), Some(&Transaction::new(fp(32.0))));
    assert_eq!(state.transaction(17), Some(&Transaction::new(fp(13.0))));
}

#[test]
fn test_normal_account_state_withdrawal() {
    let mut state = NormalAccountState::default();

    // not enough funds
    match state.withdrawal(5, fp(32.0)) {
        Err(TransactionError::TooFewFunds) => (),
        _ => assert!(false),
    }
    assert_eq!(state.transaction(5), None);

    state.deposit(13, fp(100.0)).unwrap();

    // normal withdrawal
    state.withdrawal(14, fp(42.0)).unwrap();
    assert_eq!(state.funds().available_funds, fp(58.0));
    assert_eq!(state.transaction(13), Some(&Transaction::new(fp(100.0))));
    assert_eq!(state.transaction(14), Some(&Transaction::new(fp(42.0))));
}

#[test]
fn test_normal_account_state_dispute() {
    let mut state = NormalAccountState::default();

    // no such transaction
    match state.dispute(5) {
        Err(TransactionError::NoSuchTransaction) => (),
        _ => assert!(false),
    }

    // normal dispute
    state.deposit(5, fp(100.0)).unwrap();
    state.deposit(6, fp(300.0)).unwrap();
    state.dispute(5).unwrap();

    assert_eq!(state.funds().available_funds, fp(300.0));
    assert_eq!(state.funds().held_funds, fp(100.0));
    assert_eq!(state.transaction(6), Some(&Transaction::new(fp(300.0))));
    let mut disputed_transaction = Transaction::new(fp(100.0));
    disputed_transaction.state = TransactionState::Dispute;
    assert_eq!(state.transaction(5), Some(&disputed_transaction));

    // dispute the second time
    match state.dispute(5) {
        Err(TransactionError::AlreadyDisputed) => (),
        _ => assert!(false),
    }
}

#[test]
fn test_normal_account_state_resolve() {
    let mut state = NormalAccountState::default();

    // no such transaction
    match state.resolve(5) {
        Err(TransactionError::NoSuchTransaction) => (),
        _ => assert!(false),
    }

    // not disputed
    state.deposit(5, fp(100.0)).unwrap();
    match state.resolve(5) {
        Err(TransactionError::NotDisputed) => (),
        _ => assert!(false),
    }

    // normal resolve
    state.dispute(5).unwrap();
    state.resolve(5).unwrap();
    assert_eq!(state.funds().available_funds, fp(100.0));
    assert_eq!(state.funds().held_funds, fp(0.0));
    assert_eq!(state.transaction(5), Some(&Transaction::new(fp(100.0))));
}

#[test]
fn test_normal_account_state_chargeback() {
    let mut state = NormalAccountState::default();

    // no such transaction
    match state.chargeback(5) {
        Err(TransactionError::NoSuchTransaction) => (),
        _ => assert!(false),
    }

    // not disputed
    state.deposit(5, fp(100.0)).unwrap();
    state.deposit(6, fp(300.0)).unwrap();
    match state.resolve(5) {
        Err(TransactionError::NotDisputed) => (),
        _ => assert!(false),
    }

    // normal chargeback
    state.dispute(5).unwrap();
    state.chargeback(5).unwrap();
    assert_eq!(state.funds().available_funds, fp(300.0));
    assert_eq!(state.funds().held_funds, fp(0.0));
}

#[test]
fn test_account_chargeback() {
    let mut account = Account::Normal(NormalAccountState::default());

    // no such transaction
    match account.process_chargeback(5) {
        Err(TransactionError::NoSuchTransaction) => (),
        _ => assert!(false),
    }

    // not disputed
    account.process_deposit(5, fp(100.0)).unwrap();
    account.process_deposit(6, fp(300.0)).unwrap();
    match account.process_resolve(5) {
        Err(TransactionError::NotDisputed) => (),
        _ => assert!(false),
    }

    // normal chargeback
    account.process_dispute(5).unwrap();
    account.process_chargeback(5).unwrap();
    match account {
        Account::Frozen(account_funds) => {
            assert_eq!(account_funds.available_funds, fp(300.0));
            assert_eq!(account_funds.held_funds, fp(0.0));
        }
        _ => assert!(false),
    }
}
