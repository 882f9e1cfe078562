use vstd::prelude::*;

use crate::account::{
    account_funds, account_step, view_fits, Account, AccountRecord, AccountView, ActiveView, FundsView,
};
use crate::errors::TransactionError;
use crate::record::{has_needed_amount, record_op, Record, RecordType};

verus! {

/// The number of client ids, one slot each.
pub const CLIENT_SLOTS: usize = 65536;

/// The account that a client gets on first reference.
pub open spec fn fresh_account() -> AccountView {
    AccountView::Active(ActiveView { funds: FundsView { available: 0, held: 0 }, txs: Map::empty() })
}

/// The account of slot `client` as a record finds it: the existing one, or a fresh one.
pub open spec fn account_at(s: Seq<Option<AccountView>>, client: int) -> AccountView {
    match s[client] {
        Some(a) => a,
        None => fresh_account(),
    }
}

/// The effect of a record on the ledger: the client's account, created if it
/// was missing, takes the record's operation; the outcome is the operation's.
pub open spec fn ledger_step(s: Seq<Option<AccountView>>, rec: Record) -> (
    Seq<Option<AccountView>>,
    Result<(), TransactionError>,
) {
    let (a, r) = account_step(account_at(s, rec.client as int), record_op(rec));
    (s.update(rec.client as int, Some(a)), r)
}

/// Whether the record's effect keeps the client's funds representable.
pub open spec fn record_fits(s: Seq<Option<AccountView>>, rec: Record) -> bool {
    view_fits(account_step(account_at(s, rec.client as int), record_op(rec)).0)
}

/// Whether `line` reports the funds and lock state of `a`.
pub open spec fn reports(line: AccountRecord, a: AccountView) -> bool {
    &&& line.available@ == account_funds(a).available
    &&& line.held@ == account_funds(a).held
    &&& line.total@ == account_funds(a).available + account_funds(a).held
    &&& line.locked == (a is Frozen)
}

/// All accounts, one optional slot per client id.
pub struct State {
    pub accounts: Vec<Option<Box<Account>>>,
}

/// The model of one slot.
pub open spec fn slot_view(slot: Option<Box<Account>>) -> Option<AccountView> {
    match slot {
        Some(b) => Some((*b)@),
        None => None,
    }
}

impl View for State {
    type V = Seq<Option<AccountView>>;

    open spec fn view(&self) -> Seq<Option<AccountView>> {
        self.accounts@.map_values(|slot: Option<Box<Account>>| slot_view(slot))
    }
}

impl Default for State {
    /// A ledger with no accounts.
    fn default() -> (r: Self)
        ensures
            r.wf(),
            forall|c: int| 0 <= c < CLIENT_SLOTS ==> (#[trigger] r@[c]) is None,
    {
        State::new()
    }
}

impl State {
    /// A slot for every client id, and every account's funds representable.
    pub open spec fn wf(&self) -> bool {
        &&& self@.len() == CLIENT_SLOTS
        &&& forall|c: int| 0 <= c < self@.len() && (#[trigger] self@[c]) is Some ==> view_fits(
            self@[c]->Some_0,
        )
    }

    /// A ledger with no accounts.
    pub fn new() -> (r: Self)
        ensures
            r.wf(),
            forall|c: int| 0 <= c < CLIENT_SLOTS ==> (#[trigger] r@[c]) is None,
    {
        let mut accounts: Vec<Option<Box<Account>>> = Vec::new();
        let mut i: usize = 0;
        while i < CLIENT_SLOTS
            invariant
                i <= CLIENT_SLOTS,
                accounts@.len() == i,
                forall|c: int| 0 <= c < i ==> (#[trigger] accounts@[c]) is None,
            decreases CLIENT_SLOTS - i,
        {
            accounts.push(None);
            i = i + 1;
        }
        State { accounts }
    }

    /// Whether applying `record` keeps the client's funds representable.
    pub fn accepts(&self, record: &Record) -> (r: bool)
        requires
            self.wf(),
            has_needed_amount(*record),
        ensures
            r == record_fits(self@, *record),
    {
        let i = record.client as usize;
        match &self.accounts[i] {
            Some(b) => {
                assert(self@[i as int] is Some);
                b.accepts(record)
            },
            None => {
                let fresh = Account::new();
                fresh.accepts(record)
            },
        }
    }

    /// The report: one line per existing account, by ascending client id.
    pub fn snapshot(&self) -> (r: Vec<AccountRecord>)
        requires
            self.wf(),
        ensures
            forall|j: int| 0 <= j < r@.len() ==> {
                &&& (#[trigger] r@[j]).client < CLIENT_SLOTS
                &&& self@[r@[j].client as int] is Some
                &&& reports(r@[j], self@[r@[j].client as int]->Some_0)
            },
            forall|j: int, k: int| 0 <= j < k < r@.len() ==> (#[trigger] r@[j]).client < (
            #[trigger] r@[k]).client,
            forall|c: int| 0 <= c < CLIENT_SLOTS && (#[trigger] self@[c]) is Some ==> exists|j: int|
                0 <= j < r@.len() && (#[trigger] r@[j]).client == c,
    {
        let mut out: Vec<AccountRecord> = Vec::new();
        let mut i: usize = 0;
        while i < CLIENT_SLOTS
            invariant
                self.wf(),
                i <= CLIENT_SLOTS,
                forall|j: int| 0 <= j < out@.len() ==> {
                    &&& (#[trigger] out@[j]).client < i
                    &&& self@[out@[j].client as int] is Some
                    &&& reports(out@[j], self@[out@[j].client as int]->Some_0)
                },
                forall|j: int, k: int| 0 <= j < k < out@.len() ==> (#[trigger] out@[j]).client < (
                #[trigger] out@[k]).client,
                forall|c: int| 0 <= c < i && (#[trigger] self@[c]) is Some ==> exists|j: int|
                    0 <= j < out@.len() && (#[trigger] out@[j]).client == c,
            decreases CLIENT_SLOTS - i,
        {
            match &self.accounts[i] {
                Some(b) => {
                    assert(self@[i as int] is Some);
                    let line = AccountRecord::from_account(b, i as u32);
                    let ghost before = out@;
                    out.push(line);
                    assert forall|c: int|
                        0 <= c < i + 1 && (#[trigger] self@[c]) is Some implies exists|j: int|
                        0 <= j < out@.len() && (#[trigger] out@[j]).client == c by {
                        if c < i {
                            let j = choose|j: int| 0 <= j < before.len() && (#[trigger] before[j]).client == c;
                            assert(out@[j] == before[j]);
                        } else {
                            assert(out@[out@.len() - 1].client == c);
                        }
                    }
                },
                None => {
                    assert(self@[i as int] is None);
                },
            }
            i = i + 1;
        }
        out
    }

    /// Applies one record to the ledger. The client's account is created on
    /// first reference, even when the record is then refused.
    pub fn process_record(&mut self, record: &Record) -> (r: Result<(), TransactionError>)
        requires
            old(self).wf(),
            has_needed_amount(*record),
            record_fits(old(self)@, *record),
        ensures
            final(self).wf(),
            (final(self)@, r) == ledger_step(old(self)@, *record),
    {
        let i = record.client as usize;
        let slot = self.accounts[i].take();
        let mut account: Account = match slot {
            Some(b) => *b,
            None => Account::new(),
        };
        let r = match record.record_type {
            RecordType::Deposit => account.process_deposit(record.tx, record.amount.unwrap()),
            RecordType::Withdrawal => account.process_withdrawal(record.tx, record.amount.unwrap()),
            RecordType::Dispute => account.process_dispute(record.tx),
            RecordType::Resolve => account.process_resolve(record.tx),
            RecordType::ChargeBack => account.process_chargeback(record.tx),
        };
        self.accounts[i] = Some(Box::new(account));
        proof {
            assert(self@ =~= ledger_step(old(self)@, *record).0);
        }
        r
    }
}

} // verus!
