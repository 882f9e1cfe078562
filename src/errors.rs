use vstd::prelude::*;

verus! {

/// Why a single record was refused; a refused record leaves the ledger unchanged.
#[derive(Clone, Copy, Debug, PartialEq, Eq, Structural)]
pub enum TransactionError {
    AccountFrozen,
    AlreadyDisputed,
    NoSuchTransaction,
    NotDisputed,
    TooFewFunds,
    TransactionExists,
}

} // verus!
