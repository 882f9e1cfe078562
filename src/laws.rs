use vstd::prelude::*;

use crate::account::{account_funds, account_step, active_step, AccountView, ActiveView, Op};
use crate::errors::TransactionError;
use crate::fixed_precision::{parts_of, parts_value, FixedPrecision4, PRECISION_MULTIPLIER};
use crate::record::{record_op, Record};
use crate::state::{fresh_account, ledger_step, CLIENT_SLOTS};
use crate::transaction::{Transaction, TransactionState};

verus! {

/// The part of an account's held funds that `t` stands for.
pub open spec fn held_part(t: Transaction) -> int {
    if t.state == TransactionState::Dispute {
        t.amount@
    } else {
        0
    }
}

/// The amounts of the disputed transactions among `keys`, summed.
pub open spec fn disputed_sum(txs: Map<u32, Transaction>, keys: Set<u32>) -> int
    decreases keys.len(),
{
    if keys.finite() && exists|k: u32| keys.contains(k) {
        let k = choose|k: u32| keys.contains(k);
        held_part(txs[k]) + disputed_sum(txs, keys.remove(k))
    } else {
        0
    }
}

/// The ledger invariant of an active account: both buckets and every recorded
/// amount are nonnegative, and the held funds are exactly the amounts under dispute.
pub open spec fn active_inv(s: ActiveView) -> bool {
    &&& s.funds.available >= 0
    &&& s.funds.held >= 0
    &&& s.txs.dom().finite()
    &&& forall|k: u32| s.txs.contains_key(k) ==> (#[trigger] s.txs[k]).amount@ >= 0
    &&& s.funds.held == disputed_sum(s.txs, s.txs.dom())
}

/// The ledger invariant of an account; a frozen one keeps nonnegative funds.
pub open spec fn account_inv(a: AccountView) -> bool {
    match a {
        AccountView::Active(s) => active_inv(s),
        AccountView::Frozen(f) => f.available >= 0 && f.held >= 0,
    }
}

/// The ledger invariant of every existing account.
pub open spec fn ledger_inv(s: Seq<Option<AccountView>>) -> bool {
    forall|c: int| 0 <= c < s.len() && (#[trigger] s[c]) is Some ==> account_inv(s[c]->Some_0)
}

/// Whether the amount that `op` moves, if any, is nonnegative.
pub open spec fn op_amount_nonnegative(op: Op) -> bool {
    match op {
        Op::Deposit(_, x) => x@ >= 0,
        Op::Withdrawal(_, x) => x@ >= 0,
        _ => true,
    }
}

/// Available plus held funds of an account.
pub open spec fn total_of(a: AccountView) -> int {
    account_funds(a).available + account_funds(a).held
}

/// Whether `tx` can no longer be taken by a deposit or withdrawal on `a`.
pub open spec fn id_used(a: AccountView, tx: u32) -> bool {
    match a {
        AccountView::Active(s) => s.txs.contains_key(tx),
        AccountView::Frozen(_) => true,
    }
}

/// The account after the operations `ops`, in order.
pub open spec fn run(a: AccountView, ops: Seq<Op>) -> AccountView
    decreases ops.len(),
{
    if ops.len() == 0 {
        a
    } else {
        run(account_step(a, ops[0]).0, ops.drop_first())
    }
}

proof fn lemma_sum_unfold(txs: Map<u32, Transaction>, keys: Set<u32>, k: u32)
    requires
        keys.finite(),
        keys.contains(k),
    ensures
        disputed_sum(txs, keys) == held_part(txs[k]) + disputed_sum(txs, keys.remove(k)),
    decreases keys.len(),
{
    let c = choose|c: u32| keys.contains(c);
    if c != k {
        lemma_sum_unfold(txs, keys.remove(c), k);
        lemma_sum_unfold(txs, keys.remove(k), c);
        assert(keys.remove(c).remove(k) =~= keys.remove(k).remove(c));
    }
}

proof fn lemma_sum_congruent(t1: Map<u32, Transaction>, t2: Map<u32, Transaction>, keys: Set<u32>)
    requires
        keys.finite(),
        forall|k: u32| keys.contains(k) ==> held_part(#[trigger] t1[k]) == held_part(t2[k]),
    ensures
        disputed_sum(t1, keys) == disputed_sum(t2, keys),
    decreases keys.len(),
{
    if exists|k: u32| keys.contains(k) {
        let c = choose|c: u32| keys.contains(c);
        lemma_sum_congruent(t1, t2, keys.remove(c));
    }
}

proof fn lemma_sum_nonnegative(txs: Map<u32, Transaction>, keys: Set<u32>)
    requires
        keys.finite(),
        forall|k: u32| keys.contains(k) ==> held_part(#[trigger] txs[k]) >= 0,
    ensures
        disputed_sum(txs, keys) >= 0,
    decreases keys.len(),
{
    if exists|k: u32| keys.contains(k) {
        let c = choose|c: u32| keys.contains(c);
        lemma_sum_nonnegative(txs, keys.remove(c));
    }
}

/// Replacing or adding the entry `k` changes the disputed sum by the
/// difference of the two entries' parts.
proof fn lemma_sum_insert(txs: Map<u32, Transaction>, k: u32, t: Transaction)
    requires
        txs.dom().finite(),
    ensures
        disputed_sum(txs.insert(k, t), txs.insert(k, t).dom()) == disputed_sum(txs, txs.dom())
            - (if txs.contains_key(k) {
            held_part(txs[k])
        } else {
            0
        }) + held_part(t),
{
    let t2 = txs.insert(k, t);
    lemma_sum_unfold(t2, t2.dom(), k);
    lemma_sum_congruent(t2, txs, t2.dom().remove(k));
    if txs.contains_key(k) {
        lemma_sum_unfold(txs, txs.dom(), k);
        assert(t2.dom().remove(k) =~= txs.dom().remove(k));
    } else {
        assert(t2.dom().remove(k) =~= txs.dom());
    }
}

/// Under the invariant, a disputed transaction's amount is part of the held funds.
proof fn lemma_disputed_amount_is_held(s: ActiveView, k: u32)
    requires
        active_inv(s),
        s.txs.contains_key(k),
        s.txs[k].state == TransactionState::Dispute,
    ensures
        s.txs[k].amount@ <= s.funds.held,
{
    lemma_sum_unfold(s.txs, s.txs.dom(), k);
    lemma_sum_nonnegative(s.txs, s.txs.dom().remove(k));
}

proof fn lemma_active_step_keeps_invariant(s: ActiveView, op: Op)
    requires
        active_inv(s),
        op_amount_nonnegative(op),
    ensures
        active_inv(active_step(s, op).0),
{
    let s2 = active_step(s, op).0;
    match op {
        Op::Deposit(tx, x) => {
            if !s.txs.contains_key(tx) {
                lemma_sum_insert(s.txs, tx, Transaction { amount: x, state: TransactionState::Normal });
            }
        },
        Op::Withdrawal(tx, x) => {
            if !s.txs.contains_key(tx) {
                lemma_sum_insert(s.txs, tx, Transaction { amount: x, state: TransactionState::Normal });
            }
        },
        Op::Dispute(tx) => {
            if s.txs.contains_key(tx) {
                lemma_sum_insert(s.txs, tx, s2.txs[tx]);
            }
        },
        Op::Resolve(tx) => {
            if s.txs.contains_key(tx) {
                lemma_sum_insert(s.txs, tx, s2.txs[tx]);
                if s.txs[tx].state == TransactionState::Dispute {
                    lemma_disputed_amount_is_held(s, tx);
                }
            }
        },
        Op::Chargeback(tx) => {
            if s.txs.contains_key(tx) {
                lemma_sum_insert(s.txs, tx, s2.txs[tx]);
                if s.txs[tx].state == TransactionState::Dispute {
                    lemma_disputed_amount_is_held(s, tx);
                }
            }
        },
    }
}

/// Funds never go negative: every operation whose amount is nonnegative keeps
/// the account invariant, so available and held funds stay at or above zero.
pub proof fn lemma_step_keeps_funds_nonnegative(a: AccountView, op: Op)
    requires
        account_inv(a),
        op_amount_nonnegative(op),
    ensures
        account_inv(account_step(a, op).0),
        account_funds(account_step(a, op).0).available >= 0,
        account_funds(account_step(a, op).0).held >= 0,
{
    if let AccountView::Active(s) = a {
        lemma_active_step_keeps_invariant(s, op);
    }
}

/// Funds never go negative anywhere in the ledger: a fresh ledger holds the
/// invariant, and every record with a nonnegative amount keeps it.
pub proof fn lemma_ledger_keeps_funds_nonnegative(s: Seq<Option<AccountView>>, rec: Record)
    requires
        s.len() == CLIENT_SLOTS,
        ledger_inv(s),
        op_amount_nonnegative(record_op(rec)),
    ensures
        ledger_inv(ledger_step(s, rec).0),
        ledger_inv(Seq::new(CLIENT_SLOTS as nat, |c: int| None::<AccountView>)),
{
    let a = match s[rec.client as int] {
        Some(a) => a,
        None => fresh_account(),
    };
    assert(account_inv(fresh_account())) by {
        let e = Map::<u32, Transaction>::empty();
        assert(!(exists|k: u32| e.dom().contains(k)));
    }
    assert(account_inv(a));
    lemma_step_keeps_funds_nonnegative(a, record_op(rec));
}

/// In an active account, available plus held funds drop only by a successful
/// chargeback, and then by the charged amount; dispute and resolve leave them
/// unchanged. Withdrawals, which lower them by design, are left out.
pub proof fn lemma_total_drops_only_on_chargeback(s: ActiveView, op: Op)
    requires
        op_amount_nonnegative(op),
        !(op is Withdrawal),
    ensures
        total_of(account_step(AccountView::Active(s), op).0) < total_of(AccountView::Active(s)) ==> (
        op is Chargeback && account_step(AccountView::Active(s), op).1 is Ok),
        (op is Dispute || op is Resolve) ==> total_of(account_step(AccountView::Active(s), op).0)
            == total_of(AccountView::Active(s)),
        (op is Chargeback && account_step(AccountView::Active(s), op).1 is Ok) ==> total_of(
            account_step(AccountView::Active(s), op).0,
        ) == total_of(AccountView::Active(s)) - s.txs[op->Chargeback_0].amount@,
{
}

/// A transaction id that a deposit or withdrawal took is used from then on.
pub proof fn lemma_recorded_id_is_used(a: AccountView, op: Op)
    requires
        op is Deposit || op is Withdrawal,
        account_step(a, op).1 is Ok,
    ensures
        id_used(
            account_step(a, op).0,
            match op {
                Op::Deposit(tx, _) => tx,
                Op::Withdrawal(tx, _) => tx,
                _ => 0,
            },
        ),
{
}

/// A used transaction id stays used whatever comes next, and a deposit or
/// withdrawal under it is refused (with `TransactionExists` while the account
/// is active) and changes nothing.
pub proof fn lemma_used_id_cannot_be_reused(a: AccountView, tx: u32, amount: FixedPrecision4, op: Op)
    requires
        id_used(a, tx),
    ensures
        id_used(account_step(a, op).0, tx),
        account_step(a, Op::Deposit(tx, amount)).0 == a,
        account_step(a, Op::Withdrawal(tx, amount)).0 == a,
        a is Active ==> account_step(a, Op::Deposit(tx, amount)).1 == Err::<(), TransactionError>(
            TransactionError::TransactionExists,
        ),
        a is Active ==> account_step(a, Op::Withdrawal(tx, amount)).1 == Err::<(), TransactionError>(
            TransactionError::TransactionExists,
        ),
        a is Frozen ==> account_step(a, Op::Deposit(tx, amount)).1 is Err,
        a is Frozen ==> account_step(a, Op::Withdrawal(tx, amount)).1 is Err,
{
}

/// A transaction is disputed at most once until it is resolved or charged
/// back: a successful dispute leaves it disputed, and a second dispute is
/// refused without change (`AlreadyDisputed` when the funds would allow it).
/// Resolve and chargeback of an undisputed transaction are refused with
/// `NotDisputed`.
pub proof fn lemma_dispute_lifecycle(s: ActiveView, tx: u32)
    requires
        s.txs.contains_key(tx),
    ensures
        account_step(AccountView::Active(s), Op::Dispute(tx)).1 is Ok ==> (account_step(
            AccountView::Active(s),
            Op::Dispute(tx),
        ).0->Active_0.txs[tx].state == TransactionState::Dispute),
        s.txs[tx].state == TransactionState::Dispute ==> {
            &&& account_step(AccountView::Active(s), Op::Dispute(tx)).0 == AccountView::Active(s)
            &&& account_step(AccountView::Active(s), Op::Dispute(tx)).1 is Err
            &&& s.funds.available >= s.txs[tx].amount@ ==> account_step(
                AccountView::Active(s),
                Op::Dispute(tx),
            ).1 == Err::<(), TransactionError>(TransactionError::AlreadyDisputed)
        },
        s.txs[tx].state == TransactionState::Normal ==> {
            &&& account_step(AccountView::Active(s), Op::Resolve(tx)) == (
            AccountView::Active(s),
            Err::<(), TransactionError>(TransactionError::NotDisputed),
            )
            &&& account_step(AccountView::Active(s), Op::Chargeback(tx)) == (
            AccountView::Active(s),
            Err::<(), TransactionError>(TransactionError::NotDisputed),
            )
        },
{
}

/// A successful chargeback freezes the account, and a frozen account refuses
/// every operation with `AccountFrozen` and stays exactly as it is, whatever
/// operations follow.
pub proof fn lemma_frozen_is_final(a: AccountView, op: Op, ops: Seq<Op>)
    ensures
        (op is Chargeback && account_step(a, op).1 is Ok) ==> account_step(a, op).0 is Frozen,
        a is Frozen ==> account_step(a, op) == (a, Err::<(), TransactionError>(
            TransactionError::AccountFrozen,
        )),
        a is Frozen ==> run(a, ops) == a,
    decreases ops.len(),
{
    if a is Frozen && ops.len() > 0 {
        lemma_frozen_is_final(a, op, ops.drop_first());
    }
}

/// A dispute that would take the available funds below zero is refused with
/// `TooFewFunds` and changes nothing.
pub proof fn lemma_dispute_needs_funds(s: ActiveView, tx: u32)
    requires
        s.txs.contains_key(tx),
        s.funds.available - s.txs[tx].amount@ < 0,
    ensures
        account_step(AccountView::Active(s), Op::Dispute(tx)) == (
        AccountView::Active(s),
        Err::<(), TransactionError>(TransactionError::TooFewFunds),
        ),
{
}

/// Writing an amount in decimal parts and reading it back gives the same
/// amount, and parts with a fraction below one unit (and no negative zero)
/// come back unchanged from the amount they denote.
pub proof fn lemma_parts_round_trip(v: int, negative: bool, whole: nat, fraction: nat)
    ensures
        parts_value(parts_of(v).0, parts_of(v).1, parts_of(v).2) == v,
        parts_of(v).2 < PRECISION_MULTIPLIER,
        parts_of(v).1 >= 0,
        (fraction < PRECISION_MULTIPLIER && (negative ==> whole + fraction > 0)) ==> parts_of(
            parts_value(negative, whole as int, fraction as int),
        ) == (negative, whole as int, fraction as int),
{
    let m = PRECISION_MULTIPLIER as int;
    let magnitude = if v < 0 {
        -v
    } else {
        v
    };
    assert(magnitude == (magnitude / m) * m + magnitude % m) by (nonlinear_arith)
        requires
            m == 10000,
    ;
    assert(magnitude / m >= 0) by (nonlinear_arith)
        requires
            m == 10000,
            magnitude >= 0,
    ;
    if fraction < m {
        let w = whole as int;
        let f = fraction as int;
        assert((w * m + f) / m == w && (w * m + f) % m == f) by (nonlinear_arith)
            requires
                m == 10000,
                0 <= f < m,
                w >= 0,
        ;
        assert(w * m + f >= 0) by (nonlinear_arith)
            requires
                m == 10000,
                0 <= f,
                w >= 0,
        ;
        if negative && w + f > 0 {
            assert(w * m + f > 0) by (nonlinear_arith)
                requires
                    m == 10000,
                    0 <= f,
                    w >= 0,
                    w + f > 0,
            ;
        }
    }
}

} // verus!
