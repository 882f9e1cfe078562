use vstd::prelude::*;

use crate::account::Op;
use crate::fixed_precision::FixedPrecision4;

verus! {

/// The kind of an input record.
#[derive(Clone, Copy, Debug, PartialEq, Eq, Structural)]
pub enum RecordType {
    Deposit,
    Withdrawal,
    Dispute,
    Resolve,
    ChargeBack,
}

/// `b` with an upper-case ASCII letter taken to lower case.
pub open spec fn ascii_lower(b: u8) -> u8 {
    if 65 <= b <= 90 {
        (b + 32) as u8
    } else {
        b
    }
}

/// How a record kind is spelled in the input, as lower-case ASCII codes:
/// `deposit`, `withdrawal`, `dispute`, `resolve` and `chargeback`.
pub open spec fn spelling(t: RecordType) -> Seq<u8> {
    match t {
        RecordType::Deposit => seq![100u8, 101, 112, 111, 115, 105, 116],
        RecordType::Withdrawal => seq![119u8, 105, 116, 104, 100, 114, 97, 119, 97, 108],
        RecordType::Dispute => seq![100u8, 105, 115, 112, 117, 116, 101],
        RecordType::Resolve => seq![114u8, 101, 115, 111, 108, 118, 101],
        RecordType::ChargeBack => seq![99u8, 104, 97, 114, 103, 101, 98, 97, 99, 107],
    }
}

/// Whether `name` spells the kind `t`, ignoring ASCII case.
pub open spec fn names(name: Seq<u8>, t: RecordType) -> bool {
    &&& name.len() == spelling(t).len()
    &&& forall|i: int| 0 <= i < name.len() ==> ascii_lower(#[trigger] name[i]) == spelling(t)[i]
}

fn lower(b: u8) -> (r: u8)
    ensures
        r == ascii_lower(b),
{
    if 65 <= b && b <= 90 {
        b + 32
    } else {
        b
    }
}

fn spelled(t: RecordType) -> (r: Vec<u8>)
    ensures
        r@ == spelling(t),
{
    let v = match t {
        RecordType::Deposit => vec![100u8, 101, 112, 111, 115, 105, 116],
        RecordType::Withdrawal => vec![119u8, 105, 116, 104, 100, 114, 97, 119, 97, 108],
        RecordType::Dispute => vec![100u8, 105, 115, 112, 117, 116, 101],
        RecordType::Resolve => vec![114u8, 101, 115, 111, 108, 118, 101],
        RecordType::ChargeBack => vec![99u8, 104, 97, 114, 103, 101, 98, 97, 99, 107],
    };
    assert(v@ =~= spelling(t));
    v
}

fn spells(name: &[u8], t: RecordType) -> (r: bool)
    ensures
        r == names(name@, t),
{
    let target = spelled(t);
    if name.len() != target.len() {
        return false;
    }
    let mut i: usize = 0;
    while i < name.len()
        invariant
            name@.len() == target@.len(),
            target@ == spelling(t),
            i <= name@.len(),
            forall|j: int| 0 <= j < i ==> ascii_lower(#[trigger] name@[j]) == spelling(t)[j],
        decreases name@.len() - i,
    {
        if lower(name[i]) != target[i] {
            return false;
        }
        i = i + 1;
    }
    true
}

impl RecordType {
    /// The record kind that `name` spells, in any ASCII case; `None` for an
    /// unknown name.
    pub fn from_name(name: &[u8]) -> (r: Option<RecordType>)
        ensures
            r matches Some(t) ==> names(name@, t),
            r is None ==> forall|t: RecordType| !names(name@, t),
    {
        if spells(name, RecordType::Deposit) {
            Some(RecordType::Deposit)
        } else if spells(name, RecordType::Withdrawal) {
            Some(RecordType::Withdrawal)
        } else if spells(name, RecordType::Dispute) {
            Some(RecordType::Dispute)
        } else if spells(name, RecordType::Resolve) {
            Some(RecordType::Resolve)
        } else if spells(name, RecordType::ChargeBack) {
            Some(RecordType::ChargeBack)
        } else {
            None
        }
    }
}

/// One decoded input record. Deposits and withdrawals carry an amount;
/// disputes, resolves and chargebacks only name a transaction.
#[derive(Clone, Copy, Debug)]
pub struct Record {
    pub record_type: RecordType,
    pub client: u16,
    pub tx: u32,
    pub amount: Option<FixedPrecision4>,
}

/// Whether the record carries an amount wherever its kind needs one.
pub open spec fn has_needed_amount(r: Record) -> bool {
    (r.record_type == RecordType::Deposit || r.record_type == RecordType::Withdrawal)
        ==> r.amount is Some
}

/// The account operation that a record asks for.
pub open spec fn record_op(r: Record) -> Op {
    match r.record_type {
        RecordType::Deposit => Op::Deposit(r.tx, r.amount->Some_0),
        RecordType::Withdrawal => Op::Withdrawal(r.tx, r.amount->Some_0),
        RecordType::Dispute => Op::Dispute(r.tx),
        RecordType::Resolve => Op::Resolve(r.tx),
        RecordType::ChargeBack => Op::Chargeback(r.tx),
    }
}

} // verus!
