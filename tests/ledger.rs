use transactions::account::{Account, AccountRecord};
use transactions::errors::TransactionError;
use transactions::fixed_precision::{FixedPrecision4, PRECISION_MULTIPLIER};
use transactions::record::{Record, RecordType};
use transactions::state::State;

fn units(whole: isize) -> FixedPrecision4 {
    FixedPrecision4::from_scaled(whole * 10000)
}

fn rec(record_type: RecordType, client: u16, tx: u32, amount: Option<isize>) -> Record {
    Record { record_type, client, tx, amount: amount.map(units) }
}

fn apply(state: &mut State, record: Record) -> Result<(), TransactionError> {
    assert!(state.accepts(&record));
    state.process_record(&record)
}

fn line(state: &State, client: u32) -> AccountRecord {
    let lines = state.snapshot();
    *lines.iter().find(|l| l.client == client).unwrap()
}

#[test]
fn deposit_opens_account() {
    let mut state = State::new();
    apply(&mut state, rec(RecordType::Deposit, 1, 1, Some(10))).unwrap();
    let l = line(&state, 1);
    assert_eq!(l.available, units(10));
    assert_eq!(l.held, units(0));
    assert_eq!(l.total, units(10));
    assert!(!l.locked);
}

#[test]
fn withdrawal_beyond_available_is_refused() {
    let mut state = State::new();
    apply(&mut state, rec(RecordType::Deposit, 1, 1, Some(10))).unwrap();
    let r = apply(&mut state, rec(RecordType::Withdrawal, 1, 2, Some(15)));
    assert_eq!(r, Err(TransactionError::TooFewFunds));
    assert_eq!(line(&state, 1).available, units(10));
}

#[test]
fn dispute_then_resolve_moves_funds_back() {
    // client 1 holds 10 units, 5 of them from tx 3
    let mut state = State::new();
    apply(&mut state, rec(RecordType::Deposit, 1, 1, Some(10))).unwrap();
    apply(&mut state, rec(RecordType::Deposit, 1, 3, Some(5))).unwrap();
    apply(&mut state, rec(RecordType::Withdrawal, 1, 4, Some(5))).unwrap();
    assert_eq!(line(&state, 1).available, units(10));
    apply(&mut state, rec(RecordType::Dispute, 1, 3, None)).unwrap();
    let l = line(&state, 1);
    assert_eq!(l.available, units(5));
    assert_eq!(l.held, units(5));
    assert_eq!(l.total, units(10));
    apply(&mut state, rec(RecordType::Resolve, 1, 3, None)).unwrap();
    let l = line(&state, 1);
    assert_eq!(l.available, units(10));
    assert_eq!(l.held, units(0));
}

#[test]
fn chargeback_freezes_account() {
    let mut state = State::new();
    apply(&mut state, rec(RecordType::Deposit, 2, 4, Some(20))).unwrap();
    apply(&mut state, rec(RecordType::Dispute, 2, 4, None)).unwrap();
    assert_eq!(line(&state, 2).held, units(20));
    apply(&mut state, rec(RecordType::ChargeBack, 2, 4, None)).unwrap();
    let r = apply(&mut state, rec(RecordType::Deposit, 2, 5, Some(1)));
    assert_eq!(r, Err(TransactionError::AccountFrozen));
    let l = line(&state, 2);
    assert_eq!(l.available, units(0));
    assert_eq!(l.held, units(0));
    assert_eq!(l.total, units(0));
    assert!(l.locked);
}

#[test]
fn snapshot_lists_accounts_by_client() {
    let mut state = State::new();
    apply(&mut state, rec(RecordType::Deposit, 3, 2, Some(7))).unwrap();
    apply(&mut state, rec(RecordType::Deposit, 1, 1, Some(10))).unwrap();
    let lines = state.snapshot();
    assert_eq!(lines.len(), 2);
    assert_eq!(lines[0].client, 1);
    assert_eq!(lines[0].total, units(10));
    assert_eq!(lines[1].client, 3);
    assert_eq!(lines[1].total, units(7));
}

#[test]
fn frozen_account_refuses_everything() {
    let mut account = Account::new();
    account.process_deposit(1, units(8)).unwrap();
    account.process_dispute(1).unwrap();
    account.process_chargeback(1).unwrap();
    assert!(account.is_frozen());
    assert_eq!(account.process_deposit(2, units(1)), Err(TransactionError::AccountFrozen));
    assert_eq!(account.process_withdrawal(3, units(1)), Err(TransactionError::AccountFrozen));
    assert_eq!(account.process_dispute(1), Err(TransactionError::AccountFrozen));
    assert_eq!(account.process_resolve(1), Err(TransactionError::AccountFrozen));
    assert_eq!(account.process_chargeback(1), Err(TransactionError::AccountFrozen));
    assert_eq!(account.funds().available_funds, units(0));
    assert_eq!(account.funds().held_funds, units(0));
}

#[test]
fn reused_id_is_refused() {
    let mut account = Account::new();
    account.process_deposit(7, units(3)).unwrap();
    assert_eq!(account.process_deposit(7, units(1)), Err(TransactionError::TransactionExists));
    assert_eq!(account.process_withdrawal(7, units(1)), Err(TransactionError::TransactionExists));
    assert_eq!(account.funds().available_funds, units(3));
}

#[test]
fn second_dispute_is_refused() {
    let mut account = Account::new();
    account.process_deposit(1, units(3)).unwrap();
    account.process_deposit(2, units(4)).unwrap();
    account.process_dispute(1).unwrap();
    assert_eq!(account.process_dispute(1), Err(TransactionError::AlreadyDisputed));
    assert_eq!(account.process_chargeback(2), Err(TransactionError::NotDisputed));
    assert_eq!(account.funds().available_funds, units(4));
    assert_eq!(account.funds().held_funds, units(3));
}

#[test]
fn dispute_needs_available_funds() {
    let mut account = Account::new();
    account.process_deposit(1, units(10)).unwrap();
    account.process_withdrawal(2, units(8)).unwrap();
    assert_eq!(account.process_dispute(1), Err(TransactionError::TooFewFunds));
    assert_eq!(account.funds().available_funds, units(2));
    assert_eq!(account.funds().held_funds, units(0));
}

#[test]
fn withdrawal_chargeback_removes_held_funds() {
    let mut account = Account::new();
    account.process_deposit(1, units(10)).unwrap();
    account.process_withdrawal(2, units(4)).unwrap();
    account.process_dispute(2).unwrap();
    assert_eq!(account.funds().available_funds, units(2));
    assert_eq!(account.funds().held_funds, units(4));
    account.process_chargeback(2).unwrap();
    assert_eq!(account.funds().available_funds, units(2));
    assert_eq!(account.funds().held_funds, units(0));
    assert!(account.is_frozen());
}

#[test]
fn unknown_transaction_is_reported() {
    let mut state = State::new();
    assert_eq!(
        apply(&mut state, rec(RecordType::Dispute, 5, 1, None)),
        Err(TransactionError::NoSuchTransaction)
    );
    // the account exists from its first reference on
    let lines = state.snapshot();
    assert_eq!(lines.len(), 1);
    assert_eq!(lines[0].client, 5);
    assert_eq!(lines[0].total, units(0));
}

#[test]
fn total_is_available_plus_held() {
    let mut state = State::new();
    apply(&mut state, rec(RecordType::Deposit, 9, 1, Some(6))).unwrap();
    apply(&mut state, rec(RecordType::Deposit, 9, 2, Some(4))).unwrap();
    apply(&mut state, rec(RecordType::Dispute, 9, 2, None)).unwrap();
    let l = line(&state, 9);
    assert_eq!(l.available, units(6));
    assert_eq!(l.held, units(4));
    assert_eq!(l.total, units(10));
}

#[test]
fn overflowing_deposit_is_not_accepted() {
    let mut state = State::new();
    let big = Record {
        record_type: RecordType::Deposit,
        client: 1,
        tx: 1,
        amount: Some(FixedPrecision4::from_scaled(isize::MAX)),
    };
    assert!(state.accepts(&big));
    state.process_record(&big).unwrap();
    let more = Record {
        record_type: RecordType::Deposit,
        client: 1,
        tx: 2,
        amount: Some(FixedPrecision4::from_scaled(1)),
    };
    assert!(!state.accepts(&more));
}

#[test]
fn amount_arithmetic() {
    let a = FixedPrecision4::from_scaled(12345);
    let b = FixedPrecision4::from_scaled(5);
    assert_eq!(a.add(b).scaled(), 12350);
    let mut c = a;
    c.add_assign(b);
    assert_eq!(c.scaled(), 12350);
    c.sub_assign(a);
    assert_eq!(c, b);
    assert!(b.lt(&a));
    assert!(!a.lt(&b));
    assert!(a.le(&a));
    assert_eq!(FixedPrecision4::default().scaled(), 0);
    assert_eq!(PRECISION_MULTIPLIER, 10000);
}

#[test]
fn decimal_parts_round_trip() {
    let a = FixedPrecision4::from_scaled(-123456);
    assert_eq!(a.to_parts(), (true, 12, 3456));
    assert_eq!(FixedPrecision4::from_parts(true, 12, 3456), Some(a));
    let b = FixedPrecision4::from_scaled(100000);
    assert_eq!(b.to_parts(), (false, 10, 0));
    assert_eq!(FixedPrecision4::from_parts(false, 10, 0), Some(b));
    assert_eq!(FixedPrecision4::from_parts(false, 1, 10000), None);
    assert_eq!(FixedPrecision4::from_parts(false, u64::MAX, 0), None);
    let m = FixedPrecision4::from_scaled(isize::MIN);
    let (n, w, f) = m.to_parts();
    assert_eq!(FixedPrecision4::from_parts(n, w, f), Some(m));
}

#[test]
fn record_kind_names() {
    assert_eq!(RecordType::from_name(b"deposit"), Some(RecordType::Deposit));
    assert_eq!(RecordType::from_name(b"Withdrawal"), Some(RecordType::Withdrawal));
    assert_eq!(RecordType::from_name(b"DISPUTE"), Some(RecordType::Dispute));
    assert_eq!(RecordType::from_name(b"resolve"), Some(RecordType::Resolve));
    assert_eq!(RecordType::from_name(b"chargeBack"), Some(RecordType::ChargeBack));
    assert_eq!(RecordType::from_name(b"refund"), None);
    assert_eq!(RecordType::from_name(b"deposits"), None);
    assert_eq!(RecordType::from_name(b""), None);
}

#[test]
fn unknown_kind_row_is_skipped() {
    let rows: [(&[u8], u16, u32, Option<isize>); 3] = [
        (b"deposit", 1, 1, Some(10)),
        (b"transfer", 1, 2, Some(4)),
        (b"withdrawal", 1, 3, Some(3)),
    ];
    let mut state = State::new();
    for (name, client, tx, amount) in rows.iter() {
        if let Some(kind) = RecordType::from_name(name) {
            apply(&mut state, rec(kind, *client, *tx, *amount)).unwrap();
        }
    }
    let lines = state.snapshot();
    assert_eq!(lines.len(), 1);
    assert_eq!(lines[0].available, units(7));
    assert_eq!(lines[0].total, units(7));
}
