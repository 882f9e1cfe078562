use vstd::prelude::*;

use std::collections::HashMap;

use crate::errors::TransactionError;
use crate::fixed_precision::{in_range, FixedPrecision4};
use crate::record::{has_needed_amount, record_op, Record, RecordType};
use crate::transaction::{Transaction, TransactionState};

verus! {

broadcast use vstd::std_specs::hash::group_hash_axioms;

/// The two fund buckets of an account, in scaled units.
pub struct FundsView {
    pub available: int,
    pub held: int,
}

/// An active account: its funds and the transactions it owns, by id.
pub struct ActiveView {
    pub funds: FundsView,
    pub txs: Map<u32, Transaction>,
}

/// An account, active or frozen for good.
pub enum AccountView {
    Active(ActiveView),
    Frozen(FundsView),
}

/// One operation addressed to an account.
pub enum Op {
    Deposit(u32, FixedPrecision4),
    Withdrawal(u32, FixedPrecision4),
    Dispute(u32),
    Resolve(u32),
    Chargeback(u32),
}

/// Funds whose buckets and total are all representable.
pub open spec fn funds_fit(f: FundsView) -> bool {
    &&& in_range(f.available)
    &&& in_range(f.held)
    &&& in_range(f.available + f.held)
}

/// An account whose funds are all representable.
pub open spec fn view_fits(a: AccountView) -> bool {
    match a {
        AccountView::Active(s) => funds_fit(s.funds),
        AccountView::Frozen(f) => funds_fit(f),
    }
}

/// `t` with its dispute state replaced by `state`.
pub open spec fn with_state(t: Transaction, state: TransactionState) -> Transaction {
    Transaction { amount: t.amount, state }
}

/// The effect of `op` on an active account: the account afterwards and the outcome.
/// A refused operation leaves the account exactly as it was.
pub open spec fn active_step(s: ActiveView, op: Op) -> (ActiveView, Result<(), TransactionError>) {
    let available = s.funds.available;
    let held = s.funds.held;
    match op {
        Op::Deposit(tx, amount) => if s.txs.contains_key(tx) {
            (s, Err(TransactionError::TransactionExists))
        } else {
            (
                ActiveView {
                    funds: FundsView { available: available + amount@, held },
                    txs: s.txs.insert(tx, Transaction { amount, state: TransactionState::Normal }),
                },
                Ok(()),
            )
        },
        Op::Withdrawal(tx, amount) => if s.txs.contains_key(tx) {
            (s, Err(TransactionError::TransactionExists))
        } else if available < amount@ {
            (s, Err(TransactionError::TooFewFunds))
        } else {
            (
                ActiveView {
                    funds: FundsView { available: available - amount@, held },
                    txs: s.txs.insert(tx, Transaction { amount, state: TransactionState::Normal }),
                },
                Ok(()),
            )
        },
        Op::Dispute(tx) => if !s.txs.contains_key(tx) {
            (s, Err(TransactionError::NoSuchTransaction))
        } else if available < s.txs[tx].amount@ {
            (s, Err(TransactionError::TooFewFunds))
        } else if s.txs[tx].state == TransactionState::Dispute {
            (s, Err(TransactionError::AlreadyDisputed))
        } else {
            let a = s.txs[tx].amount@;
            (
                ActiveView {
                    funds: FundsView { available: available - a, held: held + a },
                    txs: s.txs.insert(tx, with_state(s.txs[tx], TransactionState::Dispute)),
                },
                Ok(()),
            )
        },
        Op::Resolve(tx) => if !s.txs.contains_key(tx) {
            (s, Err(TransactionError::NoSuchTransaction))
        } else if s.txs[tx].state == TransactionState::Normal {
            (s, Err(TransactionError::NotDisputed))
        } else {
            let a = s.txs[tx].amount@;
            (
                ActiveView {
                    funds: FundsView { available: available + a, held: held - a },
                    txs: s.txs.insert(tx, with_state(s.txs[tx], TransactionState::Normal)),
                },
                Ok(()),
            )
        },
        Op::Chargeback(tx) => if !s.txs.contains_key(tx) {
            (s, Err(TransactionError::NoSuchTransaction))
        } else if s.txs[tx].state == TransactionState::Normal {
            (s, Err(TransactionError::NotDisputed))
        } else {
            let a = s.txs[tx].amount@;
            (
                ActiveView {
                    funds: FundsView { available, held: held - a },
                    txs: s.txs.insert(tx, with_state(s.txs[tx], TransactionState::Normal)),
                },
                Ok(()),
            )
        },
    }
}

/// The effect of `op` on an account. A frozen account refuses everything with
/// `AccountFrozen`; a successful chargeback freezes an active account with the
/// funds it has after the chargeback, dropping its transactions.
pub open spec fn account_step(a: AccountView, op: Op) -> (AccountView, Result<(), TransactionError>) {
    match a {
        AccountView::Frozen(_) => (a, Err(TransactionError::AccountFrozen)),
        AccountView::Active(s) => {
            let (s2, r) = active_step(s, op);
            if op is Chargeback && r is Ok {
                (AccountView::Frozen(s2.funds), r)
            } else {
                (AccountView::Active(s2), r)
            }
        },
    }
}

/// The funds of an account.
#[derive(Clone, Copy, Debug)]
pub struct AccountFunds {
    pub available_funds: FixedPrecision4,
    pub held_funds: FixedPrecision4,
}

impl View for AccountFunds {
    type V = FundsView;

    open spec fn view(&self) -> FundsView {
        FundsView { available: self.available_funds@, held: self.held_funds@ }
    }
}

impl Default for AccountFunds {
    /// No funds at all.
    fn default() -> (r: Self)
        ensures
            r@ == (FundsView { available: 0, held: 0 }),
    {
        AccountFunds { available_funds: FixedPrecision4::default(), held_funds: FixedPrecision4::default() }
    }
}

impl AccountFunds {
    /// Available plus held funds.
    pub fn total_funds(&self) -> (r: FixedPrecision4)
        requires
            in_range(self@.available + self@.held),
        ensures
            r@ == self@.available + self@.held,
    {
        self.available_funds.add(self.held_funds)
    }
}

/// An active account: its funds and the deposits and withdrawals it has seen.
pub struct NormalAccountState {
    funds: AccountFunds,
    transactions: HashMap<u32, Transaction>,
}

impl View for NormalAccountState {
    type V = ActiveView;

    closed spec fn view(&self) -> ActiveView {
        ActiveView { funds: self.funds@, txs: self.transactions@ }
    }
}

impl Default for NormalAccountState {
    /// An account with no funds and no transactions.
    fn default() -> (r: Self)
        ensures
            r@ == (ActiveView { funds: FundsView { available: 0, held: 0 }, txs: Map::empty() }),
    {
        NormalAccountState { funds: AccountFunds::default(), transactions: HashMap::new() }
    }
}

impl NormalAccountState {
    /// The account's funds.
    pub fn funds(&self) -> (r: AccountFunds)
        ensures
            r@ == self@.funds,
    {
        self.funds
    }

    /// The transaction recorded under `tx`, if any.
    pub fn transaction(&self, tx: u32) -> (r: Option<&Transaction>)
        ensures
            r matches Some(t) ==> self@.txs.contains_key(tx) && *t == self@.txs[tx],
            r is None ==> !self@.txs.contains_key(tx),
    {
        self.transactions.get(&tx)
    }

    /// Whether applying `record` keeps the funds representable.
    pub fn accepts(&self, record: &Record) -> (r: bool)
        requires
            funds_fit(self@.funds),
            has_needed_amount(*record),
        ensures
            r == funds_fit(active_step(self@, record_op(*record)).0.funds),
    {
        let a = self.funds.available_funds.scaled() as i128;
        let h = self.funds.held_funds.scaled() as i128;
        let (na, nh): (i128, i128) = match record.record_type {
            RecordType::Deposit | RecordType::Withdrawal => {
                let x = record.amount.unwrap().scaled() as i128;
                if self.transactions.contains_key(&record.tx) {
                    (a, h)
                } else if record.record_type == RecordType::Deposit {
                    (a + x, h)
                } else if a < x {
                    (a, h)
                } else {
                    (a - x, h)
                }
            },
            _ => match self.transactions.get(&record.tx) {
                None => (a, h),
                Some(t) => {
                    let x = t.amount.scaled() as i128;
                    let disputed = t.state == TransactionState::Dispute;
                    if record.record_type == RecordType::Dispute {
                        if a < x || disputed {
                            (a, h)
                        } else {
                            (a - x, h + x)
                        }
                    } else if !disputed {
                        (a, h)
                    } else if record.record_type == RecordType::Resolve {
                        (a + x, h - x)
                    } else {
                        (a, h - x)
                    }
                },
            },
        };
        let lo = isize::MIN as i128;
        let hi = isize::MAX as i128;
        lo <= na && na <= hi && lo <= nh && nh <= hi && lo <= na + nh && na + nh <= hi
    }

    /// Credits `amount` to the available funds under the new id `tx`.
    pub fn deposit(&mut self, tx: u32, amount: FixedPrecision4) -> (r: Result<(), TransactionError>)
        requires
            funds_fit(active_step(old(self)@, Op::Deposit(tx, amount)).0.funds),
        ensures
            (final(self)@, r) == active_step(old(self)@, Op::Deposit(tx, amount)),
    {
        if self.transactions.contains_key(&tx) {
            return Err(TransactionError::TransactionExists);
        }
        self.funds.available_funds.add_assign(amount);
        self.transactions.insert(tx, Transaction::new(amount));
        Ok(())
    }

    /// Debits `amount` from the available funds under the new id `tx`.
    pub fn withdrawal(&mut self, tx: u32, amount: FixedPrecision4) -> (r: Result<(), TransactionError>)
        requires
            funds_fit(active_step(old(self)@, Op::Withdrawal(tx, amount)).0.funds),
        ensures
            (final(self)@, r) == active_step(old(self)@, Op::Withdrawal(tx, amount)),
    {
        if self.transactions.contains_key(&tx) {
            return Err(TransactionError::TransactionExists);
        }
        if self.funds.available_funds.lt(&amount) {
            return Err(TransactionError::TooFewFunds);
        }
        self.funds.available_funds.sub_assign(amount);
        self.transactions.insert(tx, Transaction::new(amount));
        Ok(())
    }

    /// Moves the amount of transaction `tx` from available to held funds.
    pub fn dispute(&mut self, tx: u32) -> (r: Result<(), TransactionError>)
        requires
            funds_fit(active_step(old(self)@, Op::Dispute(tx)).0.funds),
        ensures
            (final(self)@, r) == active_step(old(self)@, Op::Dispute(tx)),
    {
        let mut transaction = match self.transactions.get(&tx) {
            None => return Err(TransactionError::NoSuchTransaction),
            Some(t) => *t,
        };
        if self.funds.available_funds.lt(&transaction.amount) {
            return Err(TransactionError::TooFewFunds);
        }
        match transaction.dispute() {
            Err(e) => return Err(e),
            Ok(()) => {},
        }
        self.funds.available_funds.sub_assign(transaction.amount);
        self.funds.held_funds.add_assign(transaction.amount);
        self.transactions.insert(tx, transaction);
        Ok(())
    }

    /// Moves the amount of the disputed transaction `tx` back from held to
    /// available funds.
    pub fn resolve(&mut self, tx: u32) -> (r: Result<(), TransactionError>)
        requires
            funds_fit(active_step(old(self)@, Op::Resolve(tx)).0.funds),
        ensures
            (final(self)@, r) == active_step(old(self)@, Op::Resolve(tx)),
    {
        let mut transaction = match self.transactions.get(&tx) {
            None => return Err(TransactionError::NoSuchTransaction),
            Some(t) => *t,
        };
        match transaction.resolve() {
            Err(e) => return Err(e),
            Ok(()) => {},
        }
        self.funds.available_funds.add_assign(transaction.amount);
        self.funds.held_funds.sub_assign(transaction.amount);
        self.transactions.insert(tx, transaction);
        Ok(())
    }

    /// Removes the amount of the disputed transaction `tx` from the held funds.
    pub fn chargeback(&mut self, tx: u32) -> (r: Result<(), TransactionError>)
        requires
            funds_fit(active_step(old(self)@, Op::Chargeback(tx)).0.funds),
        ensures
            (final(self)@, r) == active_step(old(self)@, Op::Chargeback(tx)),
    {
        let mut transaction = match self.transactions.get(&tx) {
            None => return Err(TransactionError::NoSuchTransaction),
            Some(t) => *t,
        };
        match transaction.chargeback() {
            Err(e) => return Err(e),
            Ok(()) => {},
        }
        self.funds.held_funds.sub_assign(transaction.amount);
        self.transactions.insert(tx, transaction);
        Ok(())
    }
}

/// An account: active, or frozen for good after a chargeback.
pub enum Account {
    Normal(NormalAccountState),
    Frozen(AccountFunds),
}

impl View for Account {
    type V = AccountView;

    open spec fn view(&self) -> AccountView {
        match self {
            Account::Normal(s) => AccountView::Active(s@),
            Account::Frozen(f) => AccountView::Frozen(f@),
        }
    }
}

impl Account {
    /// A new active account with no funds and no transactions.
    pub fn new() -> (r: Self)
        ensures
            r@ == AccountView::Active(
                ActiveView { funds: FundsView { available: 0, held: 0 }, txs: Map::empty() },
            ),
    {
        Account::Normal(NormalAccountState::default())
    }

    /// Whether the account is frozen.
    pub fn is_frozen(&self) -> (r: bool)
        ensures
            r == (self@ is Frozen),
    {
        match self {
            Account::Normal(_) => false,
            Account::Frozen(_) => true,
        }
    }

    /// The account's funds, active or frozen.
    pub fn funds(&self) -> (r: AccountFunds)
        ensures
            r@ == account_funds(self@),
    {
        match self {
            Account::Normal(s) => s.funds(),
            Account::Frozen(f) => *f,
        }
    }

    /// Whether applying `record` keeps the account's funds representable.
    pub fn accepts(&self, record: &Record) -> (r: bool)
        requires
            view_fits(self@),
            has_needed_amount(*record),
        ensures
            r == view_fits(account_step(self@, record_op(*record)).0),
    {
        match self {
            Account::Normal(s) => s.accepts(record),
            Account::Frozen(_) => true,
        }
    }

    /// A deposit of `amount` under the id `tx`.
    pub fn process_deposit(&mut self, tx: u32, amount: FixedPrecision4) -> (r: Result<(), TransactionError>)
        requires
            view_fits(account_step(old(self)@, Op::Deposit(tx, amount)).0),
        ensures
            (final(self)@, r) == account_step(old(self)@, Op::Deposit(tx, amount)),
    {
        match self {
            Account::Normal(normal_account_state) => normal_account_state.deposit(tx, amount),
            Account::Frozen(_) => Err(TransactionError::AccountFrozen),
        }
    }

    /// A withdrawal of `amount` under the id `tx`.
    pub fn process_withdrawal(&mut self, tx: u32, amount: FixedPrecision4) -> (r: Result<(), TransactionError>)
        requires
            view_fits(account_step(old(self)@, Op::Withdrawal(tx, amount)).0),
        ensures
            (final(self)@, r) == account_step(old(self)@, Op::Withdrawal(tx, amount)),
    {
        match self {
            Account::Normal(normal_account_state) => normal_account_state.withdrawal(tx, amount),
            Account::Frozen(_) => Err(TransactionError::AccountFrozen),
        }
    }

    /// A dispute of transaction `tx`.
    pub fn process_dispute(&mut self, tx: u32) -> (r: Result<(), TransactionError>)
        requires
            view_fits(account_step(old(self)@, Op::Dispute(tx)).0),
        ensures
            (final(self)@, r) == account_step(old(self)@, Op::Dispute(tx)),
    {
        match self {
            Account::Normal(normal_account_state) => normal_account_state.dispute(tx),
            Account::Frozen(_) => Err(TransactionError::AccountFrozen),
        }
    }

    /// The resolution of a dispute of transaction `tx`.
    pub fn process_resolve(&mut self, tx: u32) -> (r: Result<(), TransactionError>)
        requires
            view_fits(account_step(old(self)@, Op::Resolve(tx)).0),
        ensures
            (final(self)@, r) == account_step(old(self)@, Op::Resolve(tx)),
    {
        match self {
            Account::Normal(normal_account_state) => normal_account_state.resolve(tx),
            Account::Frozen(_) => Err(TransactionError::AccountFrozen),
        }
    }

    /// A chargeback of the disputed transaction `tx`; on success the account
    /// is replaced by a frozen one holding the funds left.
    pub fn process_chargeback(&mut self, tx: u32) -> (r: Result<(), TransactionError>)
        requires
            view_fits(account_step(old(self)@, Op::Chargeback(tx)).0),
        ensures
            (final(self)@, r) == account_step(old(self)@, Op::Chargeback(tx)),
    {
        let funds = match self {
            Account::Normal(normal_account_state) => {
                match normal_account_state.chargeback(tx) {
                    Err(e) => return Err(e),
                    Ok(()) => {},
                }
                normal_account_state.funds()
            },
            Account::Frozen(_) => return Err(TransactionError::AccountFrozen),
        };
        *self = Account::Frozen(funds);
        Ok(())
    }
}

/// The funds of an account, active or frozen.
pub open spec fn account_funds(a: AccountView) -> FundsView {
    match a {
        AccountView::Active(s) => s.funds,
        AccountView::Frozen(f) => f,
    }
}

/// One line of the final report: a client's funds and whether it is locked.
#[derive(Clone, Copy, Debug)]
pub struct AccountRecord {
    pub client: u32,
    pub available: FixedPrecision4,
    pub held: FixedPrecision4,
    pub total: FixedPrecision4,
    pub locked: bool,
}

impl AccountRecord {
    /// The report line of `account` for client `client`.
    pub fn from_account(account: &Account, client: u32) -> (r: Self)
        requires
            view_fits(account@),
        ensures
            r.client == client,
            r.available@ == account_funds(account@).available,
            r.held@ == account_funds(account@).held,
            r.total@ == account_funds(account@).available + account_funds(account@).held,
            r.locked == (account@ is Frozen),
    {
        let funds = account.funds();
        AccountRecord {
            client,
            available: funds.available_funds,
            held: funds.held_funds,
            total: funds.total_funds(),
            locked: account.is_frozen(),
        }
    }
}

} // verus!
