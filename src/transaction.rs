use vstd::prelude::*;

use crate::errors::TransactionError;
use crate::fixed_precision::FixedPrecision4;

verus! {

/// Where a transaction stands in its dispute lifecycle.
#[derive(Clone, Copy, Debug, PartialEq, Eq, Structural)]
pub enum TransactionState {
    Normal,
    Dispute,
}

/// A deposit or withdrawal that an account remembers: the amount it moved and
/// whether it is under dispute.
#[derive(Clone, Copy, Debug, PartialEq, Eq, Structural)]
pub struct Transaction {
    pub amount: FixedPrecision4,
    pub state: TransactionState,
}

impl Transaction {
    /// A transaction of `amount` that is not disputed.
    pub fn new(amount: FixedPrecision4) -> (r: Self)
        ensures
            r.amount == amount,
            r.state == TransactionState::Normal,
    {
        Transaction { amount, state: TransactionState::Normal }
    }

    /// Opens a dispute: `Normal` becomes `Dispute`; a disputed transaction
    /// is refused with `AlreadyDisputed` and left as it was.
    pub fn dispute(&mut self) -> (r: Result<(), TransactionError>)
        ensures
            final(self).amount == old(self).amount,
            old(self).state == TransactionState::Normal ==> {
                &&& r == Ok::<(), TransactionError>(())
                &&& final(self).state == TransactionState::Dispute
            },
            old(self).state == TransactionState::Dispute ==> {
                &&& r == Err::<(), TransactionError>(TransactionError::AlreadyDisputed)
                &&& *final(self) == *old(self)
            },
    {
        match self.state {
            TransactionState::Normal => self.state = TransactionState::Dispute,
            TransactionState::Dispute => return Err(TransactionError::AlreadyDisputed),
        }
        Ok(())
    }

    /// Closes a dispute: `Dispute` becomes `Normal`; an undisputed
    /// transaction is refused with `NotDisputed` and left as it was.
    pub fn resolve(&mut self) -> (r: Result<(), TransactionError>)
        ensures
            final(self).amount == old(self).amount,
            old(self).state == TransactionState::Dispute ==> {
                &&& r == Ok::<(), TransactionError>(())
                &&& final(self).state == TransactionState::Normal
            },
            old(self).state == TransactionState::Normal ==> {
                &&& r == Err::<(), TransactionError>(TransactionError::NotDisputed)
                &&& *final(self) == *old(self)
            },
    {
        match self.state {
            TransactionState::Normal => return Err(TransactionError::NotDisputed),
            TransactionState::Dispute => self.state = TransactionState::Normal,
        }
        Ok(())
    }

    /// Ends a dispute by chargeback; for the transaction itself this is the
    /// same move as `resolve`, the account above it removes the funds.
    pub fn chargeback(&mut self) -> (r: Result<(), TransactionError>)
        ensures
            final(self).amount == old(self).amount,
            old(self).state == TransactionState::Dispute ==> {
                &&& r == Ok::<(), TransactionError>(())
                &&& final(self).state == TransactionState::Normal
            },
            old(self).state == TransactionState::Normal ==> {
                &&& r == Err::<(), TransactionError>(TransactionError::NotDisputed)
                &&& *final(self) == *old(self)
            },
    {
        self.resolve()
    }
}

} // verus!
